//! The call/reply vocabulary between the verified logic and the native
//! graphics context, and the trace accounting used to state handle
//! discipline.

use vstd::prelude::*;

verus! {

/// The two shader stages a program is linked from.
#[derive(Clone, Copy, Debug, PartialEq, Eq, Structural)]
pub enum ShaderKind {
    Vertex,
    Fragment,
}

/// One call into the native graphics context. The library decides which
/// calls to make; an unverified driver performs each one and reports its
/// outcome back as a [`GlReply`].
#[derive(Debug)]
pub enum GlCall {
    /// Allocate a fresh program handle; answered with [`GlReply::Id`].
    CreateProgram,
    /// Allocate a shader-object handle for one stage; answered with
    /// [`GlReply::Id`].
    CreateShader { kind: ShaderKind },
    /// Hand `source` to the shader object and compile it; answered with
    /// [`GlReply::CompileResult`].
    CompileStage { shader: u32, source: String },
    /// Attach both stages, link the program, and release the two shader
    /// objects; answered with [`GlReply::Ack`].
    FinishProgram { program: u32, vert: u32, frag: u32 },
    /// Release one shader-object handle; answered with [`GlReply::Ack`].
    DeleteShader { shader: u32 },
    /// Release one program handle; answered with [`GlReply::Ack`].
    DeleteProgram { program: u32 },
    /// Make `program` the active one (0 clears the active program);
    /// answered with [`GlReply::Ack`].
    UseProgram { program: u32 },
    /// Look a uniform location up by name; answered with
    /// [`GlReply::Location`], negative when the name is absent.
    GetUniformLocation { program: u32, name: String },
    /// Upload a 4x4 matrix to `location` of the active program; answered
    /// with [`GlReply::Ack`]. The matrix itself stays with the driver: the
    /// library only decides where it goes.
    UploadMat4 { location: i32 },
}

/// What the native context answered to one [`GlCall`].
#[derive(Debug)]
pub enum GlReply {
    /// A freshly allocated handle.
    Id(u32),
    /// Whether a stage compiled; `log` carries the driver's message and is
    /// meaningful only on failure.
    CompileResult { ok: bool, log: String },
    /// A uniform location, or a negative value when the name is absent.
    Location(i32),
    /// The call was performed and has no result.
    Ack,
}

/// Whether `c` releases the program handle `p`.
pub open spec fn is_program_delete(c: GlCall, p: u32) -> bool {
    match c {
        GlCall::DeleteProgram { program } => program == p,
        _ => false,
    }
}

/// How many calls of `tr` release the program handle `p`.
pub open spec fn program_deletes(tr: Seq<GlCall>, p: u32) -> nat
    decreases tr.len(),
{
    if tr.len() == 0 {
        0
    } else {
        program_deletes(tr.drop_last(), p) + (if is_program_delete(tr.last(), p) {
            1nat
        } else {
            0nat
        })
    }
}

/// Extending a trace by one call raises the release count of exactly the
/// handle that call deletes, by one, and leaves every other count as it was.
pub proof fn lemma_program_deletes_push(tr: Seq<GlCall>, c: GlCall)
    ensures
        forall|p: u32|
            #[trigger] program_deletes(tr.push(c), p) == program_deletes(tr, p)
                + (if is_program_delete(c, p) {
                1nat
            } else {
                0nat
            }),
{
    assert forall|p: u32|
        #[trigger] program_deletes(tr.push(c), p) == program_deletes(tr, p)
            + (if is_program_delete(c, p) {
            1nat
        } else {
            0nat
        }) by {
        assert(tr.push(c).drop_last() =~= tr);
        assert(tr.push(c).last() == c);
    }
}

} // verus!

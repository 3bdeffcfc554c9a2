//! The shader-program handle and the calls it decides on: bind, unbind,
//! uniform upload, and the one release of its handle.

use vstd::prelude::*;

use crate::calls::GlCall;

verus! {

/// A linked shader program: owns one native program handle. The view of a
/// `Shader` is that handle.
#[derive(Debug)]
pub struct Shader {
    program: u32,
}

impl View for Shader {
    type V = u32;

    closed spec fn view(&self) -> u32 {
        self.program
    }
}

/// What to do once a uniform location came back from the context.
#[derive(Debug)]
pub struct UniformUpload {
    /// The name was absent from the program, and a warning is owed.
    pub warn_missing: bool,
    /// The upload to perform — to the looked-up location even when the
    /// name was absent, which the context treats as a no-op.
    pub call: GlCall,
}

impl Shader {
    /// Wraps a freshly linked program handle.
    pub(crate) fn from_handle(program: u32) -> (s: Shader)
        ensures
            s@ == program,
    {
        Shader { program }
    }

    /// The native program handle, for interop with other rendering calls.
    pub fn id(&self) -> (r: u32)
        ensures
            r == self@,
    {
        self.program
    }

    /// The call that makes this program the active one.
    pub fn bind(&self) -> (c: GlCall)
        ensures
            c == (GlCall::UseProgram { program: self@ }),
    {
        GlCall::UseProgram { program: self.program }
    }

    /// The call that clears the active program.
    pub fn unbind(&self) -> (c: GlCall)
        ensures
            c == (GlCall::UseProgram { program: 0 }),
    {
        GlCall::UseProgram { program: 0 }
    }

    /// The lookup that starts a matrix-uniform upload: ask the context for
    /// the location of `name` in this program. The answer goes to
    /// [`Shader::uniform_mat4f_upload`].
    pub fn uniform_mat4f(&self, name: &str) -> (c: GlCall)
        ensures
            match c {
                GlCall::GetUniformLocation { program, name: n } => program == self@ && n@
                    == name@,
                _ => false,
            },
    {
        GlCall::GetUniformLocation { program: self.program, name: name.to_owned() }
    }

    /// Finishes a matrix-uniform upload: a warning is owed exactly when the
    /// looked-up location is negative (the name was absent), and the upload
    /// goes to that location regardless.
    pub fn uniform_mat4f_upload(&self, location: i32) -> (r: UniformUpload)
        ensures
            r.warn_missing <==> location < 0,
            r.call == (GlCall::UploadMat4 { location }),
    {
        UniformUpload { warn_missing: location < 0, call: GlCall::UploadMat4 { location } }
    }

    /// Gives the handle up for release. Consuming the `Shader` here is what
    /// makes the release happen at most once; the build contract is what
    /// makes it happen at least once for every handle the build allocated
    /// and did not return.
    pub fn destroy(self) -> (c: GlCall)
        ensures
            c == (GlCall::DeleteProgram { program: self@ }),
    {
        GlCall::DeleteProgram { program: self.program }
    }
}

} // verus!

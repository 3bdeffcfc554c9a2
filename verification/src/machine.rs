//! The build machine: every decision of a shader-program build, from the
//! first allocation to the hand-off of the linked program, including the
//! fail-soft substitution of a fallback "error" shader when a stage does
//! not compile.

use vstd::prelude::*;

use crate::calls::{
    is_program_delete, lemma_program_deletes_push, program_deletes, GlCall, GlReply, ShaderKind,
};
use crate::shader::Shader;

verus! {

broadcast use vstd::seq_lib::group_seq_properties;

/// GLSL of the fallback fragment stage: a magenta/black checkerboard that
/// makes a failed compile visible instead of fatal.
pub open spec fn error_frag_chars() -> Seq<char> {
    "
#version 110

varying vec2 TexPos;

float checker(vec2 uv, float repeats)
{
  float cx = floor(repeats * uv.x);
  float cy = floor(repeats * uv.y);
  float result = mod(cx + cy, 2.0);

  return sign(result);
}

void main()
{
    gl_FragColor = mix(vec4(1.0, 0.0, 1.0, 1.0), vec4(0.0, 0.0, 0.0, 1.0), checker(TexPos.xy, 15.0));
}
"@
}

/// GLSL of the fallback vertex stage.
pub open spec fn error_vert_chars() -> Seq<char> {
    "
#version 110
attribute vec3 iPos;
attribute vec2 iTexPos;

varying vec2 TexPos;

uniform mat4 iMVP;

void main()
{
    gl_Position = iMVP * vec4( iPos.xyz, 1.0 );
    TexPos = iTexPos;
}
"@
}

/// The fallback fragment source substituted when a stage fails to compile.
pub fn error_frag_source() -> (s: &'static str)
    ensures
        s@ == error_frag_chars(),
{
    "
#version 110

varying vec2 TexPos;

float checker(vec2 uv, float repeats)
{
  float cx = floor(repeats * uv.x);
  float cy = floor(repeats * uv.y);
  float result = mod(cx + cy, 2.0);

  return sign(result);
}

void main()
{
    gl_FragColor = mix(vec4(1.0, 0.0, 1.0, 1.0), vec4(0.0, 0.0, 0.0, 1.0), checker(TexPos.xy, 15.0));
}
"
}

/// The fallback vertex source substituted when a stage fails to compile.
pub fn error_vert_source() -> (s: &'static str)
    ensures
        s@ == error_vert_chars(),
{
    "
#version 110
attribute vec3 iPos;
attribute vec2 iTexPos;

varying vec2 TexPos;

uniform mat4 iMVP;

void main()
{
    gl_Position = iMVP * vec4( iPos.xyz, 1.0 );
    TexPos = iTexPos;
}
"
}

/// Where a build stands: which native call was issued last, and which
/// handles are in play.
#[derive(Clone, Copy, Debug)]
pub enum Phase {
    /// `CreateProgram` was issued for the current round.
    CreatingProgram,
    /// `CreateShader` was issued for the vertex stage.
    CreatingVert { program: u32 },
    /// `CreateShader` was issued for the fragment stage.
    CreatingFrag { program: u32, vert: u32 },
    /// `CompileStage` was issued for the vertex stage.
    CompilingVert { program: u32, vert: u32, frag: u32 },
    /// `CompileStage` was issued for the fragment stage.
    CompilingFrag { program: u32, vert: u32, frag: u32 },
    /// One stage failed to compile and the failure was reported.
    Reporting { program: u32, vert: u32, frag: u32, stage: ShaderKind },
    /// The failed stage's shader object is being released; the round's
    /// program will be superseded by a fallback round.
    DiscardingShader { program: u32 },
    /// `FinishProgram` was issued: the program is linked once acknowledged.
    Finishing { program: u32, vert: u32, frag: u32 },
    /// A superseded program from an earlier round is being released while
    /// `keep` waits to be handed off.
    Unwinding { keep: u32 },
    /// The build is over and `program` was handed off; `step` must not be
    /// called again.
    Complete { program: u32 },
}

/// One decision of the build machine.
#[derive(Debug)]
pub enum Step {
    /// Perform this native call and report its reply (with
    /// [`GlReply::Ack`] for calls that have no result).
    Call(GlCall),
    /// Report that `stage` failed to compile, with the driver's log; then
    /// acknowledge with [`GlReply::Ack`]. The build goes on with the
    /// fallback sources instead of failing.
    ReportCompileError { stage: ShaderKind, log: String },
    /// The build is over: the linked program, and whether the fallback
    /// pair was substituted for sources that did not compile.
    Done { shader: Shader, used_fallback: bool },
}

/// Drives one shader-program build as a conversation of native calls and
/// replies. The builder owns every decision; an unverified driver performs
/// the calls. Its contract accounts for every program handle the build
/// allocates: each one is either handed off in [`Step::Done`] or released
/// exactly once.
pub struct ShaderBuilder {
    /// Fragment source of the current round.
    pub frag_src: String,
    /// Vertex source of the current round.
    pub vert_src: String,
    /// Whether the current round builds the fallback pair.
    pub fallback: bool,
    /// Programs of failed rounds, still to be released (latest last).
    pub pending: Vec<u32>,
    /// Where the build stands.
    pub phase: Phase,
    /// Every native call issued so far.
    pub trace: Ghost<Seq<GlCall>>,
    /// Every program handle the context granted so far.
    pub programs: Ghost<Seq<u32>>,
}

/// The parts of a builder that one step leaves unchanged on most
/// transitions.
pub open spec fn same_config(pre: ShaderBuilder, post: ShaderBuilder) -> bool {
    &&& post.vert_src@ == pre.vert_src@
    &&& post.frag_src@ == pre.frag_src@
    &&& post.fallback == pre.fallback
    &&& post.pending@ == pre.pending@
}

/// What acknowledging `Finishing` or `Unwinding` does: release one more
/// superseded program, or hand the linked `program` off.
pub open spec fn finish_rel(pre: ShaderBuilder, post: ShaderBuilder, out: Step, program: u32) -> bool {
    &&& post.programs@ == pre.programs@
    &&& post.vert_src@ == pre.vert_src@
    &&& post.frag_src@ == pre.frag_src@
    &&& post.fallback == pre.fallback
    &&& if pre.pending@.len() == 0 {
        &&& post.phase == (Phase::Complete { program })
        &&& match out {
            Step::Done { shader, used_fallback } => shader@ == program && used_fallback
                == pre.fallback,
            _ => false,
        }
        &&& post.trace@ == pre.trace@
        &&& post.pending@ == pre.pending@
    } else {
        &&& post.phase == (Phase::Unwinding { keep: program })
        &&& out == Step::Call(GlCall::DeleteProgram { program: pre.pending@.last() })
        &&& post.trace@ == pre.trace@.push(GlCall::DeleteProgram { program: pre.pending@.last() })
        &&& post.pending@ == pre.pending@.drop_last()
    }
}

/// The transition relation of the build machine: what one step does to the
/// builder and what it emits, for every phase and reply.
pub open spec fn step_rel(pre: ShaderBuilder, reply: GlReply, post: ShaderBuilder, out: Step) -> bool {
    match pre.phase {
        Phase::CreatingProgram => match reply {
            GlReply::Id(p) => {
                &&& post.phase == (Phase::CreatingVert { program: p })
                &&& out == Step::Call(GlCall::CreateShader { kind: ShaderKind::Vertex })
                &&& post.trace@ == pre.trace@.push(
                    GlCall::CreateShader { kind: ShaderKind::Vertex },
                )
                &&& post.programs@ == pre.programs@.push(p)
                &&& same_config(pre, post)
            },
            _ => false,
        },
        Phase::CreatingVert { program } => match reply {
            GlReply::Id(v) => {
                &&& post.phase == (Phase::CreatingFrag { program, vert: v })
                &&& out == Step::Call(GlCall::CreateShader { kind: ShaderKind::Fragment })
                &&& post.trace@ == pre.trace@.push(
                    GlCall::CreateShader { kind: ShaderKind::Fragment },
                )
                &&& post.programs@ == pre.programs@
                &&& same_config(pre, post)
            },
            _ => false,
        },
        Phase::CreatingFrag { program, vert } => match reply {
            GlReply::Id(f) => {
                &&& post.phase == (Phase::CompilingVert { program, vert, frag: f })
                &&& out == Step::Call(GlCall::CompileStage { shader: vert, source: pre.vert_src })
                &&& post.trace@ == pre.trace@.push(
                    GlCall::CompileStage { shader: vert, source: pre.vert_src },
                )
                &&& post.programs@ == pre.programs@
                &&& same_config(pre, post)
            },
            _ => false,
        },
        Phase::CompilingVert { program, vert, frag } => match reply {
            GlReply::CompileResult { ok, log } => if ok {
                &&& post.phase == (Phase::CompilingFrag { program, vert, frag })
                &&& out == Step::Call(GlCall::CompileStage { shader: frag, source: pre.frag_src })
                &&& post.trace@ == pre.trace@.push(
                    GlCall::CompileStage { shader: frag, source: pre.frag_src },
                )
                &&& post.programs@ == pre.programs@
                &&& same_config(pre, post)
            } else {
                &&& post.phase == (Phase::Reporting {
                    program,
                    vert,
                    frag,
                    stage: ShaderKind::Vertex,
                })
                &&& out == (Step::ReportCompileError { stage: ShaderKind::Vertex, log })
                &&& post.trace@ == pre.trace@
                &&& post.programs@ == pre.programs@
                &&& same_config(pre, post)
            },
            _ => false,
        },
        Phase::CompilingFrag { program, vert, frag } => match reply {
            GlReply::CompileResult { ok, log } => if ok {
                &&& post.phase == (Phase::Finishing { program, vert, frag })
                &&& out == Step::Call(GlCall::FinishProgram { program, vert, frag })
                &&& post.trace@ == pre.trace@.push(GlCall::FinishProgram { program, vert, frag })
                &&& post.programs@ == pre.programs@
                &&& same_config(pre, post)
            } else {
                &&& post.phase == (Phase::Reporting {
                    program,
                    vert,
                    frag,
                    stage: ShaderKind::Fragment,
                })
                &&& out == (Step::ReportCompileError { stage: ShaderKind::Fragment, log })
                &&& post.trace@ == pre.trace@
                &&& post.programs@ == pre.programs@
                &&& same_config(pre, post)
            },
            _ => false,
        },
        Phase::Reporting { program, vert, frag, stage } => match reply {
            GlReply::Ack => {
                let failed = if stage == ShaderKind::Vertex {
                    vert
                } else {
                    frag
                };
                &&& post.phase == (Phase::DiscardingShader { program })
                &&& out == Step::Call(GlCall::DeleteShader { shader: failed })
                &&& post.trace@ == pre.trace@.push(GlCall::DeleteShader { shader: failed })
                &&& post.programs@ == pre.programs@
                &&& same_config(pre, post)
            },
            _ => false,
        },
        Phase::DiscardingShader { program } => match reply {
            GlReply::Ack => {
                &&& post.phase == Phase::CreatingProgram
                &&& out == Step::Call(GlCall::CreateProgram)
                &&& post.trace@ == pre.trace@.push(GlCall::CreateProgram)
                &&& post.programs@ == pre.programs@
                &&& post.pending@ == pre.pending@.push(program)
                &&& post.fallback == true
                &&& post.vert_src@ == error_vert_chars()
                &&& post.frag_src@ == error_frag_chars()
            },
            _ => false,
        },
        Phase::Finishing { program, vert, frag } => match reply {
            GlReply::Ack => finish_rel(pre, post, out, program),
            _ => false,
        },
        Phase::Unwinding { keep } => match reply {
            GlReply::Ack => finish_rel(pre, post, out, keep),
            _ => false,
        },
        Phase::Complete { .. } => false,
    }
}

impl ShaderBuilder {
    /// The program handle of the round now being built, if one is
    /// allocated and not yet handed off.
    pub open spec fn current_program(self) -> Option<u32> {
        match self.phase {
            Phase::CreatingProgram => None,
            Phase::CreatingVert { program } => Some(program),
            Phase::CreatingFrag { program, .. } => Some(program),
            Phase::CompilingVert { program, .. } => Some(program),
            Phase::CompilingFrag { program, .. } => Some(program),
            Phase::Reporting { program, .. } => Some(program),
            Phase::DiscardingShader { program } => Some(program),
            Phase::Finishing { program, .. } => Some(program),
            Phase::Unwinding { keep } => Some(keep),
            Phase::Complete { .. } => None,
        }
    }

    /// The program handle a completed build handed off.
    pub open spec fn handed_off(self) -> Option<u32> {
        match self.phase {
            Phase::Complete { program } => Some(program),
            _ => None,
        }
    }

    /// Whether the builder still answers for `q`: it is the current
    /// round's program, a superseded one awaiting release, or the one
    /// handed off. Exactly these handles have not been released.
    pub open spec fn retained(self, q: u32) -> bool {
        self.pending@.contains(q) || self.current_program() == Some(q) || self.handed_off()
            == Some(q)
    }

    /// The builder's invariant: handles are granted once and nonzero, and
    /// the trace releases each granted program exactly once — except the
    /// retained ones, not released at all.
    pub open spec fn wf(self) -> bool {
        &&& self.programs@.no_duplicates()
        &&& self.pending@.no_duplicates()
        &&& forall|i: int|
            0 <= i < self.pending@.len() ==> self.programs@.contains(#[trigger] self.pending@[i])
                && self.pending@[i] != 0
        &&& match self.current_program() {
            Some(p) => self.programs@.contains(p) && !self.pending@.contains(p) && p != 0,
            None => true,
        }
        &&& match self.handed_off() {
            Some(p) => self.programs@.contains(p) && p != 0 && self.pending@.len() == 0,
            None => true,
        }
        &&& forall|q: u32|
            self.programs@.contains(q) ==> #[trigger] program_deletes(self.trace@, q) == (
            if self.retained(q) {
                0nat
            } else {
                1nat
            })
        &&& forall|q: u32|
            !self.programs@.contains(q) ==> #[trigger] program_deletes(self.trace@, q) == 0
    }

    /// Which replies a step accepts in the current phase. For a fresh
    /// program handle the context must answer with a nonzero id it has not
    /// granted before — which a context that allocates live handles does,
    /// since the build releases no program before its last allocation.
    pub open spec fn accepts(self, reply: GlReply) -> bool {
        match self.phase {
            Phase::CreatingProgram => match reply {
                GlReply::Id(p) => p != 0 && !self.programs@.contains(p),
                _ => false,
            },
            Phase::CreatingVert { .. } => reply is Id,
            Phase::CreatingFrag { .. } => reply is Id,
            Phase::CompilingVert { .. } => reply is CompileResult,
            Phase::CompilingFrag { .. } => reply is CompileResult,
            Phase::Reporting { .. } => reply is Ack,
            Phase::DiscardingShader { .. } => reply is Ack,
            Phase::Finishing { .. } => reply is Ack,
            Phase::Unwinding { .. } => reply is Ack,
            Phase::Complete { .. } => false,
        }
    }

    /// Starts a build of the two sources and issues its first call, the
    /// program allocation.
    pub fn new(frag: String, vert: String) -> (r: (ShaderBuilder, GlCall))
        ensures
            r.0.wf(),
            r.0.phase == Phase::CreatingProgram,
            r.0.frag_src@ == frag@,
            r.0.vert_src@ == vert@,
            r.0.fallback == false,
            r.0.pending@.len() == 0,
            r.0.programs@ == Seq::<u32>::empty(),
            r.0.trace@ == seq![GlCall::CreateProgram],
            r.1 == GlCall::CreateProgram,
    {
        let b = ShaderBuilder {
            frag_src: frag,
            vert_src: vert,
            fallback: false,
            pending: Vec::new(),
            phase: Phase::CreatingProgram,
            trace: Ghost(Seq::empty().push(GlCall::CreateProgram)),
            programs: Ghost(Seq::empty()),
        };
        proof {
            lemma_program_deletes_push(Seq::empty(), GlCall::CreateProgram);
            assert(forall|q: u32| #[trigger] program_deletes(Seq::<GlCall>::empty(), q) == 0);
        }
        (b, GlCall::CreateProgram)
    }

    /// One decision of the build: consumes the reply to the last step and
    /// says what to do next. When it says [`Step::Done`], the handed-off
    /// program is nonzero, was never released, and every other program the
    /// build allocated was released exactly once.
    pub fn step(&mut self, reply: GlReply) -> (out: Step)
        requires
            old(self).wf(),
            old(self).accepts(reply),
        ensures
            final(self).wf(),
            step_rel(*old(self), reply, *final(self), out),
            match out {
                Step::Done { shader, used_fallback } => {
                    &&& shader@ != 0
                    &&& final(self).programs@.contains(shader@)
                    &&& program_deletes(final(self).trace@, shader@) == 0
                    &&& forall|q: u32|
                        final(self).programs@.contains(q) && q != shader@
                            ==> #[trigger] program_deletes(final(self).trace@, q) == 1
                    &&& used_fallback == old(self).fallback
                },
                _ => true,
            },
    {
        let ph = self.phase;
        match ph {
            Phase::CreatingProgram => match reply {
                GlReply::Id(p) => {
                    self.phase = Phase::CreatingVert { program: p };
                    self.programs = Ghost(self.programs@.push(p));
                    let c = GlCall::CreateShader { kind: ShaderKind::Vertex };
                    self.trace = Ghost(
                        self.trace@.push(GlCall::CreateShader { kind: ShaderKind::Vertex }),
                    );
                    proof {
                        lemma_program_deletes_push(
                            old(self).trace@,
                            GlCall::CreateShader { kind: ShaderKind::Vertex },
                        );
                    }
                    Step::Call(c)
                },
                _ => unreached(),
            },
            Phase::CreatingVert { program } => match reply {
                GlReply::Id(v) => {
                    self.phase = Phase::CreatingFrag { program, vert: v };
                    let c = GlCall::CreateShader { kind: ShaderKind::Fragment };
                    self.trace = Ghost(
                        self.trace@.push(GlCall::CreateShader { kind: ShaderKind::Fragment }),
                    );
                    proof {
                        lemma_program_deletes_push(
                            old(self).trace@,
                            GlCall::CreateShader { kind: ShaderKind::Fragment },
                        );
                    }
                    Step::Call(c)
                },
                _ => unreached(),
            },
            Phase::CreatingFrag { program, vert } => match reply {
                GlReply::Id(f) => {
                    self.phase = Phase::CompilingVert { program, vert, frag: f };
                    let src = self.vert_src.clone();
                    self.trace = Ghost(
                        self.trace@.push(GlCall::CompileStage { shader: vert, source: self.vert_src }),
                    );
                    proof {
                        lemma_program_deletes_push(
                            old(self).trace@,
                            GlCall::CompileStage { shader: vert, source: self.vert_src },
                        );
                    }
                    Step::Call(GlCall::CompileStage { shader: vert, source: src })
                },
                _ => unreached(),
            },
            Phase::CompilingVert { program, vert, frag } => match reply {
                GlReply::CompileResult { ok, log } => if ok {
                    self.phase = Phase::CompilingFrag { program, vert, frag };
                    let src = self.frag_src.clone();
                    self.trace = Ghost(
                        self.trace@.push(GlCall::CompileStage { shader: frag, source: self.frag_src }),
                    );
                    proof {
                        lemma_program_deletes_push(
                            old(self).trace@,
                            GlCall::CompileStage { shader: frag, source: self.frag_src },
                        );
                    }
                    Step::Call(GlCall::CompileStage { shader: frag, source: src })
                } else {
                    self.phase = Phase::Reporting { program, vert, frag, stage: ShaderKind::Vertex };
                    Step::ReportCompileError { stage: ShaderKind::Vertex, log }
                },
                _ => unreached(),
            },
            Phase::CompilingFrag { program, vert, frag } => match reply {
                GlReply::CompileResult { ok, log } => if ok {
                    self.phase = Phase::Finishing { program, vert, frag };
                    self.trace = Ghost(
                        self.trace@.push(GlCall::FinishProgram { program, vert, frag }),
                    );
                    proof {
                        lemma_program_deletes_push(
                            old(self).trace@,
                            GlCall::FinishProgram { program, vert, frag },
                        );
                    }
                    Step::Call(GlCall::FinishProgram { program, vert, frag })
                } else {
                    self.phase = Phase::Reporting {
                        program,
                        vert,
                        frag,
                        stage: ShaderKind::Fragment,
                    };
                    Step::ReportCompileError { stage: ShaderKind::Fragment, log }
                },
                _ => unreached(),
            },
            Phase::Reporting { program, vert, frag, stage } => match reply {
                GlReply::Ack => {
                    let failed = if stage == ShaderKind::Vertex {
                        vert
                    } else {
                        frag
                    };
                    self.phase = Phase::DiscardingShader { program };
                    self.trace = Ghost(self.trace@.push(GlCall::DeleteShader { shader: failed }));
                    proof {
                        lemma_program_deletes_push(
                            old(self).trace@,
                            GlCall::DeleteShader { shader: failed },
                        );
                    }
                    Step::Call(GlCall::DeleteShader { shader: failed })
                },
                _ => unreached(),
            },
            Phase::DiscardingShader { program } => match reply {
                GlReply::Ack => {
                    self.pending.push(program);
                    self.fallback = true;
                    self.vert_src = error_vert_source().to_owned();
                    self.frag_src = error_frag_source().to_owned();
                    self.phase = Phase::CreatingProgram;
                    self.trace = Ghost(self.trace@.push(GlCall::CreateProgram));
                    proof {
                        lemma_program_deletes_push(old(self).trace@, GlCall::CreateProgram);
                    }
                    Step::Call(GlCall::CreateProgram)
                },
                _ => unreached(),
            },
            Phase::Finishing { program, vert: _, frag: _ } => match reply {
                GlReply::Ack => self.finish_step(program),
                _ => unreached(),
            },
            Phase::Unwinding { keep } => match reply {
                GlReply::Ack => self.finish_step(keep),
                _ => unreached(),
            },
            Phase::Complete { .. } => unreached(),
        }
    }

    /// Releases the next superseded program, or hands the linked one off.
    fn finish_step(&mut self, program: u32) -> (out: Step)
        requires
            old(self).wf(),
            old(self).current_program() == Some(program),
            old(self).handed_off() is None,
        ensures
            final(self).wf(),
            finish_rel(*old(self), *final(self), out, program),
            final(self).phase == if old(self).pending@.len() == 0 {
                (Phase::Complete { program })
            } else {
                (Phase::Unwinding { keep: program })
            },
            match out {
                Step::Done { shader, used_fallback } => {
                    &&& shader@ != 0
                    &&& final(self).programs@.contains(shader@)
                    &&& program_deletes(final(self).trace@, shader@) == 0
                    &&& forall|q: u32|
                        final(self).programs@.contains(q) && q != shader@
                            ==> #[trigger] program_deletes(final(self).trace@, q) == 1
                    &&& used_fallback == old(self).fallback
                },
                _ => true,
            },
    {
        if self.pending.len() == 0 {
            self.phase = Phase::Complete { program };
            let shader = Shader::from_handle(program);
            proof {
                assert forall|q: u32| final(self).programs@.contains(q) && q != program
                    implies #[trigger] program_deletes(final(self).trace@, q) == 1 by {
                    assert(!final(self).retained(q));
                }
            }
            Step::Done { shader, used_fallback: self.fallback }
        } else {
            let q = match self.pending.pop() {
                Some(q) => q,
                None => unreached(),
            };
            self.phase = Phase::Unwinding { keep: program };
            self.trace = Ghost(self.trace@.push(GlCall::DeleteProgram { program: q }));
            proof {
                lemma_program_deletes_push(old(self).trace@, GlCall::DeleteProgram { program: q });
                assert(old(self).pending@.last() == q);
                assert(final(self).pending@ == old(self).pending@.drop_last());
                assert(!final(self).pending@.contains(q)) by {
                    if final(self).pending@.contains(q) {
                        let i = choose|i: int|
                            0 <= i < final(self).pending@.len() && final(self).pending@[i] == q;
                        assert(old(self).pending@[i] == old(self).pending@.last());
                    }
                }
                assert forall|r: u32| final(self).pending@.contains(r) implies old(
                    self,
                ).pending@.contains(r) by {
                    let i = choose|i: int|
                        0 <= i < final(self).pending@.len() && final(self).pending@[i] == r;
                    assert(old(self).pending@[i] == r);
                }
            }
            Step::Call(GlCall::DeleteProgram { program: q })
        }
    }
}

/// Law: the handle a completed build hands off is released exactly once
/// over the shader's whole life. The build itself never releases it —
/// [`ShaderBuilder::step`] ensures its release count over the build's
/// calls is zero at [`Step::Done`] — and [`Shader::destroy`], which
/// consumes the shader and so can be called at most once, is the one call
/// that releases it. A trace extended by that call releases the handle
/// exactly once.
pub proof fn lemma_handle_released_exactly_once(build_trace: Seq<GlCall>, p: u32)
    requires
        program_deletes(build_trace, p) == 0,
    ensures
        program_deletes(build_trace.push(GlCall::DeleteProgram { program: p }), p) == 1,
{
    lemma_program_deletes_push(build_trace, GlCall::DeleteProgram { program: p });
    assert(is_program_delete(GlCall::DeleteProgram { program: p }, p));
}

} // verus!

//! Runs a whole build against the model context, the way an unverified
//! driver runs it against the native one: perform each decided call, hand
//! the reply back, and keep going until the machine hands the program off.
//! Being verified end to end, it shows that a build always yields a usable
//! program — valid sources or not — and that the model confirms what the
//! machine's accounting promises about every handle.

use vstd::prelude::*;

use crate::calls::{is_program_delete, program_deletes, GlCall, GlReply, ShaderKind};
use crate::machine::{error_frag_chars, error_vert_chars, Phase, ShaderBuilder, Step};
use crate::mock::{count_handle, lemma_count_handle_push, MockContext};
use crate::shader::Shader;

verus! {

broadcast use vstd::seq_lib::group_seq_properties;

/// How many of the build's releases of `q` the context has performed:
/// every release the builder issued, minus the one still in flight.
pub open spec fn pdel_done(b: ShaderBuilder, call: GlCall, q: u32) -> int {
    program_deletes(b.trace@, q) - (if is_program_delete(call, q) {
        1int
    } else {
        0int
    })
}

/// The call in flight is the one the builder's phase says it issued last.
pub open spec fn call_matches_phase(b: ShaderBuilder, call: GlCall) -> bool {
    match b.phase {
        Phase::CreatingProgram => call == GlCall::CreateProgram,
        Phase::CreatingVert { .. } => call == (GlCall::CreateShader { kind: ShaderKind::Vertex }),
        Phase::CreatingFrag { .. } => call == (GlCall::CreateShader {
            kind: ShaderKind::Fragment,
        }),
        Phase::CompilingVert { vert, .. } => match call {
            GlCall::CompileStage { shader, source } => shader == vert && source@ == b.vert_src@,
            _ => false,
        },
        Phase::CompilingFrag { frag, .. } => match call {
            GlCall::CompileStage { shader, source } => shader == frag && source@ == b.frag_src@,
            _ => false,
        },
        Phase::Reporting { .. } => false,
        Phase::DiscardingShader { .. } => call is DeleteShader,
        Phase::Finishing { program, vert, frag } => call == (GlCall::FinishProgram {
            program,
            vert,
            frag,
        }),
        Phase::Unwinding { keep } => match call {
            GlCall::DeleteProgram { program } => b.programs@.contains(program) && program != keep
                && !b.pending@.contains(program),
            _ => false,
        },
        Phase::Complete { .. } => false,
    }
}

/// How many ids the context has granted to the build so far, read off the
/// builder's round and phase: three per round, one per allocation.
pub open spec fn alloc_count(b: ShaderBuilder) -> int {
    (if b.fallback {
        3int
    } else {
        0int
    }) + match b.phase {
        Phase::CreatingProgram => 0int,
        Phase::CreatingVert { .. } => 1int,
        Phase::CreatingFrag { .. } => 2int,
        _ => 3int,
    }
}

/// How far a build still has to go: one rank per phase, a whole round's
/// worth more while the first round can still fail over to the fallback
/// one, and one per superseded program still to release. Every step
/// lowers it, which is why a build ends.
pub open spec fn build_measure(b: ShaderBuilder) -> int {
    (if b.fallback {
        0int
    } else {
        20int
    }) + match b.phase {
        Phase::CreatingProgram => 12int,
        Phase::CreatingVert { .. } => 11int,
        Phase::CreatingFrag { .. } => 10int,
        Phase::CompilingVert { .. } => 9int,
        Phase::CompilingFrag { .. } => 8int,
        Phase::Reporting { .. } => 7int,
        Phase::DiscardingShader { .. } => 6int,
        Phase::Finishing { .. } => 5int + b.pending@.len(),
        Phase::Unwinding { .. } => 4int + b.pending@.len(),
        Phase::Complete { .. } => 0int,
    }
}

/// The coupling between the builder and the model context while a build
/// runs: the call in flight matches the phase, ids granted to the build
/// are fresh and accounted for, the context's release record and live set
/// agree with the builder's trace, and the fallback flag agrees with
/// whether a round's source was rejected.
pub open spec fn build_inv(
    ctx0: MockContext,
    ctx: MockContext,
    b: ShaderBuilder,
    call: GlCall,
    vs: Seq<char>,
    fs: Seq<char>,
) -> bool {
    &&& b.wf()
    &&& ctx.wf()
    &&& call_matches_phase(b, call)
    &&& ctx.bad_sources@ == ctx0.bad_sources@
    &&& ctx.uniforms@ == ctx0.uniforms@
    &&& ctx.next_id as int == ctx0.next_id as int + alloc_count(b)
    &&& forall|q: u32|
        #[trigger] b.programs@.contains(q) ==> ctx0.next_id <= q < ctx.next_id
    &&& forall|q: u32|
        #[trigger] count_handle(ctx.deleted_programs@, q) == count_handle(
            ctx0.deleted_programs@,
            q,
        ) + pdel_done(b, call, q)
    &&& forall|q: u32|
        b.programs@.contains(q) ==> (#[trigger] ctx.live(q) <==> pdel_done(b, call, q) == 0)
    &&& forall|q: u32|
        !b.programs@.contains(q) ==> (#[trigger] ctx.live(q) <==> ctx0.live(q))
    &&& b.pending@.len() <= 1
    &&& (!b.fallback ==> b.pending@.len() == 0)
    &&& (b.fallback ==> b.vert_src@ == error_vert_chars() && b.frag_src@ == error_frag_chars())
    &&& (!b.fallback ==> b.vert_src@ == vs && b.frag_src@ == fs)
    &&& (b.fallback ==> ctx0.rejects(vs) || ctx0.rejects(fs))
    &&& match b.phase {
        Phase::Reporting { .. } => !b.fallback,
        Phase::DiscardingShader { .. } => !b.fallback && (ctx0.rejects(vs) || ctx0.rejects(fs)),
        _ => true,
    }
    &&& (!b.fallback ==> match b.phase {
        Phase::CompilingFrag { .. } => !ctx0.rejects(vs),
        Phase::Finishing { .. } => !ctx0.rejects(vs) && !ctx0.rejects(fs),
        Phase::Unwinding { .. } => !ctx0.rejects(vs) && !ctx0.rejects(fs),
        Phase::Complete { .. } => !ctx0.rejects(vs) && !ctx0.rejects(fs),
        _ => true,
    })
    &&& match b.phase {
        Phase::Unwinding { keep } => ctx.linked@.contains(keep),
        _ => true,
    }
}

/// Builds a shader program against the model context and returns the
/// shader together with whether the fallback pair was substituted. It
/// always returns a shader — a rejected source degrades to the fallback,
/// never to a failure — whose handle is nonzero, live, linked, and not
/// released by the build.
pub fn build_with_mock(ctx: &mut MockContext, frag: &str, vert: &str) -> (r: (Shader, bool))
    requires
        old(ctx).wf(),
        old(ctx).next_id <= u32::MAX - 8,
        !old(ctx).rejects(error_vert_chars()),
        !old(ctx).rejects(error_frag_chars()),
    ensures
        final(ctx).wf(),
        r.0@ != 0,
        final(ctx).live(r.0@),
        final(ctx).linked@.contains(r.0@),
        final(ctx).release_count(r.0@) == old(ctx).release_count(r.0@),
        r.1 == (old(ctx).rejects(vert@) || old(ctx).rejects(frag@)),
        final(ctx).bad_sources@ == old(ctx).bad_sources@,
        final(ctx).uniforms@ == old(ctx).uniforms@,
{
    let ghost vs = vert@;
    let ghost fs = frag@;
    let (mut b, first) = ShaderBuilder::new(frag.to_owned(), vert.to_owned());
    let mut call = first;
    proof {
        crate::calls::lemma_program_deletes_push(Seq::empty(), GlCall::CreateProgram);
        assert(forall|q: u32| #[trigger] program_deletes(Seq::<GlCall>::empty(), q) == 0);
    }
    loop
        invariant
            old(ctx).wf(),
            old(ctx).next_id <= u32::MAX - 8,
            !old(ctx).rejects(error_vert_chars()),
            !old(ctx).rejects(error_frag_chars()),
            vs == vert@,
            fs == frag@,
            build_inv(*old(ctx), *ctx, b, call, vs, fs),
        decreases build_measure(b),
    {
        let ghost ctx_pre = *ctx;
        let ghost b_pre = b;
        let ghost call_pre = call;
        let reply = ctx.call(&call);
        proof {
            match call {
                GlCall::DeleteProgram { program } => {
                    lemma_count_handle_push(ctx_pre.deleted_programs@, program);
                },
                _ => {},
            }
        }
        let out = b.step(reply);
        proof {
            if b.trace@.len() == b_pre.trace@.len() + 1 {
                crate::calls::lemma_program_deletes_push(b_pre.trace@, b.trace@.last());
                assert(b_pre.trace@.push(b.trace@.last()) =~= b.trace@);
            }
        }
        match out {
            Step::Call(c) => {
                call = c;
            },
            Step::ReportCompileError { stage: _, log: _ } => {
                let ghost b_mid = b;
                let out2 = b.step(GlReply::Ack);
                proof {
                    if b.trace@.len() == b_mid.trace@.len() + 1 {
                        crate::calls::lemma_program_deletes_push(b_mid.trace@, b.trace@.last());
                        assert(b_mid.trace@.push(b.trace@.last()) =~= b.trace@);
                    }
                }
                match out2 {
                    Step::Call(c) => {
                        call = c;
                    },
                    _ => {
                        proof {
                            assert(false);
                        }
                        unreached()
                    },
                }
            },
            Step::Done { shader, used_fallback } => {
                proof {
                    let p = shader@;
                    assert(count_handle(ctx_pre.deleted_programs@, p) == count_handle(
                        old(ctx).deleted_programs@,
                        p,
                    ) + pdel_done(b_pre, call_pre, p));
                    assert(ctx_pre.live(p) <==> pdel_done(b_pre, call_pre, p) == 0);
                    assert(program_deletes(b_pre.trace@, p) == 0);
                }
                return (shader, used_fallback);
            },
        }
        proof {
            assert forall|q: u32|
                #[trigger] count_handle(ctx.deleted_programs@, q) == count_handle(
                    old(ctx).deleted_programs@,
                    q,
                ) + pdel_done(b, call, q) by {
                assert(count_handle(ctx_pre.deleted_programs@, q) == count_handle(
                    old(ctx).deleted_programs@,
                    q,
                ) + pdel_done(b_pre, call_pre, q));
            }
            assert forall|q: u32| b.programs@.contains(q) implies (#[trigger] ctx.live(q)
                <==> pdel_done(b, call, q) == 0) by {
                if b_pre.programs@.contains(q) {
                    assert(ctx_pre.live(q) <==> pdel_done(b_pre, call_pre, q) == 0);
                } else {
                    assert(ctx_pre.live(q) <==> old(ctx).live(q));
                    assert(program_deletes(b_pre.trace@, q) == 0);
                }
            }
            assert forall|q: u32| !b.programs@.contains(q) implies (#[trigger] ctx.live(q)
                <==> old(ctx).live(q)) by {
                assert(!b_pre.programs@.contains(q));
                assert(ctx_pre.live(q) <==> old(ctx).live(q));
            }
        }
    }
}

/// Uploads a matrix uniform against the model context the way the wrapper
/// does it natively: look the name up in the shader's program, warn
/// exactly when it is absent, and perform the upload either way — to the
/// looked-up location, or to the no-op location -1 when the name was
/// absent. It never fails: a miss degrades to a warning and a recorded
/// no-op upload.
pub fn uniform_mat4f_with_mock(ctx: &mut MockContext, s: &Shader, name: &str) -> (warned: bool)
    requires
        old(ctx).wf(),
    ensures
        final(ctx).wf(),
        warned <==> !old(ctx).has_uniform(name@),
        final(ctx).uploads@.len() == old(ctx).uploads@.len() + 1,
        warned ==> final(ctx).uploads@.last() == -1,
        !warned ==> final(ctx).uploads@.last() >= 0,
        final(ctx).live_programs@ == old(ctx).live_programs@,
        final(ctx).deleted_programs@ == old(ctx).deleted_programs@,
        final(ctx).linked@ == old(ctx).linked@,
        final(ctx).uniforms@ == old(ctx).uniforms@,
        final(ctx).bad_sources@ == old(ctx).bad_sources@,
        final(ctx).next_id == old(ctx).next_id,
{
    let lookup = s.uniform_mat4f(name);
    let reply = ctx.call(&lookup);
    let location = match reply {
        GlReply::Location(l) => l,
        _ => unreached(),
    };
    let plan = s.uniform_mat4f_upload(location);
    let _ = ctx.call(&plan.call);
    plan.warn_missing
}

} // verus!

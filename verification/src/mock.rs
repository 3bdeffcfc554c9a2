//! A handle-tracking model of the native graphics context. It answers
//! every [`GlCall`] without a GPU: it grants fresh nonzero ids, keeps the
//! set of live program handles, compiles every source except those marked
//! as rejected, resolves uniform names against a configured table, and
//! records every program release and every matrix upload — which is what
//! lets a test observe that a handle was released exactly once.

use vstd::prelude::*;

use crate::calls::{GlCall, GlReply};

verus! {

broadcast use vstd::seq_lib::group_seq_properties;

/// The message this model attaches to a rejected compile.
pub open spec fn mock_error_log_chars() -> Seq<char> {
    "source was marked as rejected"@
}

/// The message this model attaches to a rejected compile.
pub fn mock_error_log() -> (s: &'static str)
    ensures
        s@ == mock_error_log_chars(),
{
    "source was marked as rejected"
}

/// How many entries of `s` equal `h`.
pub open spec fn count_handle(s: Seq<u32>, h: u32) -> nat
    decreases s.len(),
{
    if s.len() == 0 {
        0
    } else {
        count_handle(s.drop_last(), h) + (if s.last() == h {
            1nat
        } else {
            0nat
        })
    }
}

/// Recording one more release raises the count of exactly that handle by
/// one, and leaves every other count as it was.
pub proof fn lemma_count_handle_push(s: Seq<u32>, h: u32)
    ensures
        forall|q: u32|
            #[trigger] count_handle(s.push(h), q) == count_handle(s, q) + (if h == q {
                1nat
            } else {
                0nat
            }),
{
    assert forall|q: u32|
        #[trigger] count_handle(s.push(h), q) == count_handle(s, q) + (if h == q {
            1nat
        } else {
            0nat
        }) by {
        assert(s.push(h).drop_last() =~= s);
        assert(s.push(h).last() == h);
    }
}

/// Whether some entry of `v` reads as `s`.
fn contains_string(v: &Vec<String>, s: &String) -> (r: bool)
    ensures
        r == exists|i: int| 0 <= i < v@.len() && #[trigger] v@[i]@ == s@,
{
    let mut j: usize = 0;
    while j < v.len()
        invariant
            j <= v@.len(),
            forall|i: int| 0 <= i < j ==> #[trigger] v@[i]@ != s@,
        decreases v@.len() - j,
    {
        if v[j] == *s {
            return true;
        }
        j += 1;
    }
    false
}

/// The table index of `name` in `v`, or -1 when it is absent.
fn find_name(v: &Vec<String>, name: &String) -> (l: i32)
    requires
        v@.len() <= 0x1000,
    ensures
        (l >= 0) <==> (exists|i: int| 0 <= i < v@.len() && #[trigger] v@[i]@ == name@),
        !(exists|i: int| 0 <= i < v@.len() && #[trigger] v@[i]@ == name@) ==> l == -1,
{
    let mut j: usize = 0;
    while j < v.len()
        invariant
            j <= v@.len(),
            v@.len() <= 0x1000,
            forall|i: int| 0 <= i < j ==> #[trigger] v@[i]@ != name@,
        decreases v@.len() - j,
    {
        if v[j] == *name {
            return j as i32;
        }
        j += 1;
    }
    -1
}

/// Whether some entry of `v` is `h`.
fn contains_handle(v: &Vec<u32>, h: u32) -> (r: bool)
    ensures
        r == v@.contains(h),
{
    let mut j: usize = 0;
    while j < v.len()
        invariant
            j <= v@.len(),
            forall|i: int| 0 <= i < j ==> v@[i] != h,
        decreases v@.len() - j,
    {
        if v[j] == h {
            return true;
        }
        j += 1;
    }
    false
}

/// Takes every entry equal to `h` out of `v`, keeping the rest.
fn remove_handle(v: &mut Vec<u32>, h: u32)
    requires
        old(v)@.no_duplicates(),
    ensures
        final(v)@.no_duplicates(),
        forall|q: u32| #[trigger] final(v)@.contains(q) <==> old(v)@.contains(q) && q != h,
{
    let mut out: Vec<u32> = Vec::new();
    let mut j: usize = 0;
    while j < v.len()
        invariant
            j <= v@.len(),
            v@ == old(v)@,
            v@.no_duplicates(),
            out@.no_duplicates(),
            forall|q: u32| #[trigger] out@.contains(q) <==> (exists|i: int|
                0 <= i < j && v@[i] == q && q != h),
        decreases v@.len() - j,
    {
        let x = v[j];
        if x != h {
            proof {
                if out@.contains(x) {
                    let i = choose|i: int| 0 <= i < j && v@[i] == x;
                    assert(v@[i] == v@[j as int]);
                }
            }
            out.push(x);
        }
        j += 1;
    }
    *v = out;
}

/// The model context. Every field is observable, so contracts and tests
/// can speak of what a sequence of calls did to it.
pub struct MockContext {
    /// The next handle to grant; handles are granted in order from 1.
    pub next_id: u32,
    /// Program handles granted and not yet released.
    pub live_programs: Vec<u32>,
    /// Programs that were linked, in order.
    pub linked: Vec<u32>,
    /// The active program, 0 for none.
    pub active: u32,
    /// Sources this context refuses to compile.
    pub bad_sources: Vec<String>,
    /// Uniform names this context resolves; the location is the index.
    pub uniforms: Vec<String>,
    /// Every program release performed, in order — double releases
    /// included, which is how a test can see there were none.
    pub deleted_programs: Vec<u32>,
    /// The location of every matrix upload performed, in order.
    pub uploads: Vec<i32>,
}

impl MockContext {
    /// Whether this context refuses to compile `src`.
    pub open spec fn rejects(self, src: Seq<char>) -> bool {
        exists|i: int| 0 <= i < self.bad_sources@.len() && #[trigger] self.bad_sources@[i]@ == src
    }

    /// Whether this context resolves the uniform name.
    pub open spec fn has_uniform(self, name: Seq<char>) -> bool {
        exists|i: int| 0 <= i < self.uniforms@.len() && #[trigger] self.uniforms@[i]@ == name
    }

    /// Whether the program handle is live.
    pub open spec fn live(self, p: u32) -> bool {
        self.live_programs@.contains(p)
    }

    /// How many times the program handle was released.
    pub open spec fn release_count(self, p: u32) -> nat {
        count_handle(self.deleted_programs@, p)
    }

    /// The context's invariant: handles are granted in order, so the live
    /// ones are distinct, nonzero and below `next_id`.
    pub open spec fn wf(self) -> bool {
        &&& self.next_id >= 1
        &&& self.live_programs@.no_duplicates()
        &&& forall|q: u32| self.live_programs@.contains(q) ==> 1 <= q < self.next_id
        &&& self.uniforms@.len() <= 0x1000
    }

    /// A fresh context: nothing granted, nothing recorded, every source
    /// accepted, no uniform known.
    pub fn new() -> (r: MockContext)
        ensures
            r.wf(),
            r.next_id == 1,
            r.live_programs@ == Seq::<u32>::empty(),
            r.linked@ == Seq::<u32>::empty(),
            r.active == 0,
            r.bad_sources@ == Seq::<String>::empty(),
            r.uniforms@ == Seq::<String>::empty(),
            r.deleted_programs@ == Seq::<u32>::empty(),
            r.uploads@ == Seq::<i32>::empty(),
    {
        MockContext {
            next_id: 1,
            live_programs: Vec::new(),
            linked: Vec::new(),
            active: 0,
            bad_sources: Vec::new(),
            uniforms: Vec::new(),
            deleted_programs: Vec::new(),
            uploads: Vec::new(),
        }
    }

    /// Marks a source as one this context refuses to compile.
    pub fn reject_source(&mut self, src: String)
        requires
            old(self).wf(),
        ensures
            final(self).wf(),
            final(self).bad_sources@ == old(self).bad_sources@.push(src),
            final(self).uniforms@ == old(self).uniforms@,
            final(self).next_id == old(self).next_id,
            final(self).live_programs@ == old(self).live_programs@,
            final(self).linked@ == old(self).linked@,
            final(self).active == old(self).active,
            final(self).deleted_programs@ == old(self).deleted_programs@,
            final(self).uploads@ == old(self).uploads@,
    {
        self.bad_sources.push(src);
    }

    /// Adds a uniform name this context resolves.
    pub fn add_uniform(&mut self, name: String)
        requires
            old(self).wf(),
            old(self).uniforms@.len() < 0x1000,
        ensures
            final(self).wf(),
            final(self).uniforms@ == old(self).uniforms@.push(name),
            final(self).bad_sources@ == old(self).bad_sources@,
            final(self).next_id == old(self).next_id,
            final(self).live_programs@ == old(self).live_programs@,
            final(self).linked@ == old(self).linked@,
            final(self).active == old(self).active,
            final(self).deleted_programs@ == old(self).deleted_programs@,
            final(self).uploads@ == old(self).uploads@,
    {
        self.uniforms.push(name);
    }

    /// Whether the program handle is live, for a test to observe.
    pub fn is_live_program(&self, p: u32) -> (r: bool)
        ensures
            r == self.live(p),
    {
        contains_handle(&self.live_programs, p)
    }

    /// Whether the program was linked, for a test to observe.
    pub fn is_linked(&self, p: u32) -> (r: bool)
        ensures
            r == self.linked@.contains(p),
    {
        contains_handle(&self.linked, p)
    }

    /// How many times the program handle was released, for a test to
    /// observe.
    pub fn program_delete_count(&self, p: u32) -> (r: usize)
        ensures
            r == self.release_count(p),
    {
        let mut j: usize = 0;
        let mut cnt: usize = 0;
        while j < self.deleted_programs.len()
            invariant
                j <= self.deleted_programs@.len(),
                cnt <= j,
                cnt as nat == count_handle(self.deleted_programs@.take(j as int), p),
            decreases self.deleted_programs@.len() - j,
        {
            proof {
                assert(self.deleted_programs@.take(j + 1).drop_last() =~= self.deleted_programs@.take(
                    j as int,
                ));
                assert(self.deleted_programs@.take(j + 1).last() == self.deleted_programs@[j as int]);
            }
            if self.deleted_programs[j] == p {
                cnt += 1;
            }
            j += 1;
        }
        proof {
            assert(self.deleted_programs@.take(j as int) =~= self.deleted_programs@);
        }
        cnt
    }

    /// The active program, for a test to observe.
    pub fn active_program(&self) -> (r: u32)
        ensures
            r == self.active,
    {
        self.active
    }

    /// The location of the latest matrix upload, if any.
    pub fn last_upload(&self) -> (r: Option<i32>)
        ensures
            match r {
                Some(l) => self.uploads@.len() > 0 && l == self.uploads@.last(),
                None => self.uploads@.len() == 0,
            },
    {
        if self.uploads.len() == 0 {
            None
        } else {
            Some(self.uploads[self.uploads.len() - 1])
        }
    }

    /// Performs one call against the model and answers it: grants the
    /// next id for an allocation, compiles everything not marked rejected,
    /// resolves a uniform name to its table index or to -1, and records
    /// every program release and every upload.
    pub fn call(&mut self, c: &GlCall) -> (r: GlReply)
        requires
            old(self).wf(),
            (c is CreateProgram || c is CreateShader) ==> old(self).next_id < 0xFFFF_FFFFu32,
        ensures
            final(self).wf(),
            call_rel(*old(self), *c, *final(self), r),
    {
        match c {
            GlCall::CreateProgram => {
                let id = self.next_id;
                proof {
                    assert(!self.live_programs@.contains(id));
                }
                self.next_id = self.next_id + 1;
                self.live_programs.push(id);
                GlReply::Id(id)
            },
            GlCall::CreateShader { .. } => {
                let id = self.next_id;
                self.next_id = self.next_id + 1;
                GlReply::Id(id)
            },
            GlCall::CompileStage { shader: _, source } => {
                let ok = !contains_string(&self.bad_sources, source);
                let log = if ok {
                    String::new()
                } else {
                    mock_error_log().to_owned()
                };
                GlReply::CompileResult { ok, log }
            },
            GlCall::FinishProgram { program, vert: _, frag: _ } => {
                self.linked.push(*program);
                GlReply::Ack
            },
            GlCall::DeleteShader { .. } => GlReply::Ack,
            GlCall::DeleteProgram { program } => {
                remove_handle(&mut self.live_programs, *program);
                self.deleted_programs.push(*program);
                GlReply::Ack
            },
            GlCall::UseProgram { program } => {
                self.active = *program;
                GlReply::Ack
            },
            GlCall::GetUniformLocation { program: _, name } => {
                GlReply::Location(find_name(&self.uniforms, name))
            },
            GlCall::UploadMat4 { location } => {
                self.uploads.push(*location);
                GlReply::Ack
            },
        }
    }
}

/// What one call does to the model and what it answers, for every call.
pub open spec fn call_rel(pre: MockContext, c: GlCall, post: MockContext, r: GlReply) -> bool {
    match c {
        GlCall::CreateProgram => {
            &&& r == GlReply::Id(pre.next_id)
            &&& post.next_id == pre.next_id + 1
            &&& post.live_programs@ == pre.live_programs@.push(pre.next_id)
            &&& post.linked@ == pre.linked@
            &&& post.active == pre.active
            &&& post.bad_sources@ == pre.bad_sources@
            &&& post.uniforms@ == pre.uniforms@
            &&& post.deleted_programs@ == pre.deleted_programs@
            &&& post.uploads@ == pre.uploads@
        },
        GlCall::CreateShader { .. } => {
            &&& r == GlReply::Id(pre.next_id)
            &&& post.next_id == pre.next_id + 1
            &&& post.live_programs@ == pre.live_programs@
            &&& post.linked@ == pre.linked@
            &&& post.active == pre.active
            &&& post.bad_sources@ == pre.bad_sources@
            &&& post.uniforms@ == pre.uniforms@
            &&& post.deleted_programs@ == pre.deleted_programs@
            &&& post.uploads@ == pre.uploads@
        },
        GlCall::CompileStage { shader: _, source } => {
            &&& post == pre
            &&& match r {
                GlReply::CompileResult { ok, log } => {
                    &&& ok == !pre.rejects(source@)
                    &&& (ok ==> log@ == Seq::<char>::empty())
                    &&& (!ok ==> log@ == mock_error_log_chars())
                },
                _ => false,
            }
        },
        GlCall::FinishProgram { program, .. } => {
            &&& r == GlReply::Ack
            &&& post.linked@ == pre.linked@.push(program)
            &&& post.next_id == pre.next_id
            &&& post.live_programs@ == pre.live_programs@
            &&& post.active == pre.active
            &&& post.bad_sources@ == pre.bad_sources@
            &&& post.uniforms@ == pre.uniforms@
            &&& post.deleted_programs@ == pre.deleted_programs@
            &&& post.uploads@ == pre.uploads@
        },
        GlCall::DeleteShader { .. } => {
            &&& r == GlReply::Ack
            &&& post == pre
        },
        GlCall::DeleteProgram { program } => {
            &&& r == GlReply::Ack
            &&& post.deleted_programs@ == pre.deleted_programs@.push(program)
            &&& forall|q: u32|
                #[trigger] post.live_programs@.contains(q) <==> pre.live_programs@.contains(q) && q
                    != program
            &&& post.next_id == pre.next_id
            &&& post.linked@ == pre.linked@
            &&& post.active == pre.active
            &&& post.bad_sources@ == pre.bad_sources@
            &&& post.uniforms@ == pre.uniforms@
            &&& post.uploads@ == pre.uploads@
        },
        GlCall::UseProgram { program } => {
            &&& r == GlReply::Ack
            &&& post.active == program
            &&& post.next_id == pre.next_id
            &&& post.live_programs@ == pre.live_programs@
            &&& post.linked@ == pre.linked@
            &&& post.bad_sources@ == pre.bad_sources@
            &&& post.uniforms@ == pre.uniforms@
            &&& post.deleted_programs@ == pre.deleted_programs@
            &&& post.uploads@ == pre.uploads@
        },
        GlCall::GetUniformLocation { program: _, name } => {
            &&& post == pre
            &&& match r {
                GlReply::Location(l) => {
                    &&& (l >= 0) <==> pre.has_uniform(name@)
                    &&& (!pre.has_uniform(name@) ==> l == -1)
                },
                _ => false,
            }
        },
        GlCall::UploadMat4 { location } => {
            &&& r == GlReply::Ack
            &&& post.uploads@ == pre.uploads@.push(location)
            &&& post.next_id == pre.next_id
            &&& post.live_programs@ == pre.live_programs@
            &&& post.linked@ == pre.linked@
            &&& post.active == pre.active
            &&& post.bad_sources@ == pre.bad_sources@
            &&& post.uniforms@ == pre.uniforms@
            &&& post.deleted_programs@ == pre.deleted_programs@
        },
    }
}

} // verus!

//! The graphics side of one test as a command sequence, and a model of the
//! graphics state those commands drive.
//!
//! A test never improvises: it generates a fixed number of texture names,
//! binds and allocates each one according to its configuration, deletes them
//! all, and waits for the blocking completion barrier. `Test::plan` lays that
//! sequence out as data; the binary only plays it against the real driver.
//! The model below says what each command does to the texture-name table and
//! to the sticky error flag, and the law at the end proves that a planned
//! sequence never raises the error and tears every texture down.

use vstd::prelude::*;
use crate::config::{Allocation, Test, TargetKind};

verus! {

/// One graphics call of a test, with the arguments the driver needs.
#[derive(Clone, Copy, Debug, PartialEq, Eq, Structural)]
pub enum Cmd {
    /// Generate `count` texture names; the test refers to them by index.
    GenTextures { count: u32 },
    /// Bind generated name number `index` to `target`.
    BindTexture { target: TargetKind, index: u32 },
    /// Clamp the maximum mip level of the bound texture to zero.
    LimitMipLevels { target: TargetKind },
    /// Legacy upload: allocate a `size`×`size` four-byte-per-texel image for
    /// the bound texture.
    TexImage2d { target: TargetKind, size: u32 },
    /// Immutable storage: allocate one `size`×`size` mip level for the bound
    /// texture.
    TexStorage2d { target: TargetKind, size: u32 },
    /// Delete the `count` generated names and their storage.
    DeleteTextures { count: u32 },
    /// Block until the driver has finished all submitted work.
    Finish,
}

/// The modelled driver state: how many names exist, how many still hold
/// storage, whether some texture is bound, and the sticky error flag.
pub struct GlModel {
    /// Texture names generated and not yet deleted.
    pub generated: nat,
    /// Texture objects not yet deleted (every generated name, here).
    pub live: nat,
    /// Whether a texture is bound to some target.
    pub bound: bool,
    /// Set by an invalid command and never cleared.
    pub error: bool,
}

/// The state of a freshly created context: nothing generated, nothing bound,
/// no error.
pub open spec fn init_model() -> GlModel {
    GlModel { generated: 0, live: 0, bound: false, error: false }
}

/// What one command does to the modelled state. Binding an ungenerated name
/// or allocating with nothing bound raises the error flag; once raised it
/// sticks.
pub open spec fn step(s: GlModel, c: Cmd) -> GlModel {
    if s.error {
        s
    } else {
        match c {
            Cmd::GenTextures { count } => GlModel {
                generated: (s.generated + count) as nat,
                live: (s.live + count) as nat,
                ..s
            },
            Cmd::BindTexture { index, .. } => if (index as nat) < s.generated {
                GlModel { bound: true, ..s }
            } else {
                GlModel { error: true, ..s }
            },
            Cmd::LimitMipLevels { .. } => if s.bound {
                s
            } else {
                GlModel { error: true, ..s }
            },
            Cmd::TexImage2d { .. } => if s.bound {
                s
            } else {
                GlModel { error: true, ..s }
            },
            Cmd::TexStorage2d { .. } => if s.bound {
                s
            } else {
                GlModel { error: true, ..s }
            },
            Cmd::DeleteTextures { count } => GlModel {
                generated: if s.generated >= count {
                    (s.generated - count) as nat
                } else {
                    0
                },
                live: if s.live >= count {
                    (s.live - count) as nat
                } else {
                    0
                },
                bound: false,
                ..s
            },
            Cmd::Finish => s,
        }
    }
}

/// Runs a command sequence through the model, front to back.
pub open spec fn run_model(s: GlModel, cmds: Seq<Cmd>) -> GlModel
    decreases cmds.len(),
{
    if cmds.len() == 0 {
        s
    } else {
        run_model(step(s, cmds[0]), cmds.drop_first())
    }
}

/// Running a concatenation runs the two halves in order.
pub proof fn lemma_run_concat(s: GlModel, a: Seq<Cmd>, b: Seq<Cmd>)
    ensures
        run_model(s, a + b) == run_model(run_model(s, a), b),
    decreases a.len(),
{
    if a.len() == 0 {
        assert(a + b =~= b);
    } else {
        assert((a + b)[0] == a[0]);
        assert((a + b).drop_first() =~= a.drop_first() + b);
        lemma_run_concat(step(s, a[0]), a.drop_first(), b);
    }
}

/// Running a single command steps once.
proof fn lemma_run_one(s: GlModel, c0: Cmd)
    ensures
        run_model(s, seq![c0]) == step(s, c0),
{
    let cs = seq![c0];
    assert(run_model(s, cs) == run_model(step(s, cs[0]), cs.drop_first()));
    assert(cs.drop_first() =~= Seq::<Cmd>::empty());
    assert(run_model(step(s, c0), Seq::<Cmd>::empty()) == step(s, c0));
}

/// Running two commands steps twice.
proof fn lemma_run_two(s: GlModel, c0: Cmd, c1: Cmd)
    ensures
        run_model(s, seq![c0, c1]) == step(step(s, c0), c1),
{
    let cs = seq![c0, c1];
    assert(run_model(s, cs) == run_model(step(s, cs[0]), cs.drop_first()));
    assert(cs.drop_first() =~= seq![c1]);
    lemma_run_one(step(s, c0), c1);
}

/// Running three commands steps three times.
proof fn lemma_run_three(s: GlModel, c0: Cmd, c1: Cmd, c2: Cmd)
    ensures
        run_model(s, seq![c0, c1, c2]) == step(step(step(s, c0), c1), c2),
{
    let cs = seq![c0, c1, c2];
    assert(run_model(s, cs) == run_model(step(s, cs[0]), cs.drop_first()));
    assert(cs.drop_first() =~= seq![c1, c2]);
    lemma_run_two(step(s, c0), c1, c2);
}

/// The commands that bind and allocate texture number `i`.
pub open spec fn tex_block_spec(t: Test, i: u32, size: u32) -> Seq<Cmd> {
    match t.alloc {
        Allocation::Old { limit_max } => if limit_max {
            seq![
                Cmd::BindTexture { target: t.target, index: i },
                Cmd::LimitMipLevels { target: t.target },
                Cmd::TexImage2d { target: t.target, size },
            ]
        } else {
            seq![
                Cmd::BindTexture { target: t.target, index: i },
                Cmd::TexImage2d { target: t.target, size },
            ]
        },
        Allocation::Storage => seq![
            Cmd::BindTexture { target: t.target, index: i },
            Cmd::TexStorage2d { target: t.target, size },
        ],
    }
}

/// The blocks for textures `0` up to `k`, in order.
pub open spec fn blocks_spec(t: Test, k: u32, size: u32) -> Seq<Cmd>
    decreases k,
{
    if k == 0 {
        Seq::empty()
    } else {
        blocks_spec(t, (k - 1) as u32, size) + tex_block_spec(t, (k - 1) as u32, size)
    }
}

/// Everything one test asks of the driver: generate, allocate each texture,
/// delete them all, and wait for completion.
pub open spec fn plan_spec(t: Test, count: u32, size: u32) -> Seq<Cmd> {
    seq![Cmd::GenTextures { count }] + blocks_spec(t, count, size) + seq![
        Cmd::DeleteTextures { count },
        Cmd::Finish,
    ]
}

impl Test {
    /// Lays out the command sequence this test runs against the driver.
    pub fn plan(&self, count: u32, size: u32) -> (r: Vec<Cmd>)
        ensures
            r@ == plan_spec(*self, count, size),
    {
        let mut v: Vec<Cmd> = Vec::new();
        v.push(Cmd::GenTextures { count });
        let mut i: u32 = 0;
        while i < count
            invariant
                i <= count,
                v@ == seq![Cmd::GenTextures { count }] + blocks_spec(*self, i, size),
            decreases count - i,
        {
            v.push(Cmd::BindTexture { target: self.target, index: i });
            match self.alloc {
                Allocation::Old { limit_max } => {
                    if limit_max {
                        v.push(Cmd::LimitMipLevels { target: self.target });
                    }
                    v.push(Cmd::TexImage2d { target: self.target, size });
                },
                Allocation::Storage => {
                    v.push(Cmd::TexStorage2d { target: self.target, size });
                },
            }
            proof {
                assert(blocks_spec(*self, (i + 1) as u32, size) == blocks_spec(*self, i, size)
                    + tex_block_spec(*self, i, size));
                assert(v@ =~= seq![Cmd::GenTextures { count }] + blocks_spec(
                    *self,
                    (i + 1) as u32,
                    size,
                ));
            }
            i += 1;
        }
        v.push(Cmd::DeleteTextures { count });
        v.push(Cmd::Finish);
        proof {
            assert(v@ =~= plan_spec(*self, count, size));
        }
        v
    }
}

/// Running one texture block from an error-free state with enough generated
/// names keeps the state error-free and changes nothing but the binding.
proof fn lemma_block_run(t: Test, s: GlModel, i: u32, size: u32)
    requires
        !s.error,
        (i as nat) < s.generated,
    ensures
        run_model(s, tex_block_spec(t, i, size)) == (GlModel { bound: true, ..s }),
{
    let bind = Cmd::BindTexture { target: t.target, index: i };
    match t.alloc {
        Allocation::Old { limit_max } => {
            if limit_max {
                lemma_run_three(
                    s,
                    bind,
                    Cmd::LimitMipLevels { target: t.target },
                    Cmd::TexImage2d { target: t.target, size },
                );
            } else {
                lemma_run_two(s, bind, Cmd::TexImage2d { target: t.target, size });
            }
        },
        Allocation::Storage => {
            lemma_run_two(s, bind, Cmd::TexStorage2d { target: t.target, size });
        },
    }
}

/// Running the first `k` texture blocks from an error-free state with at
/// least `k` generated names raises no error and deletes nothing.
proof fn lemma_blocks_run(t: Test, s: GlModel, k: u32, size: u32)
    requires
        !s.error,
        k as nat <= s.generated,
    ensures
        ({
            let e = run_model(s, blocks_spec(t, k, size));
            &&& !e.error
            &&& e.generated == s.generated
            &&& e.live == s.live
        }),
    decreases k,
{
    if k != 0 {
        let prev = blocks_spec(t, (k - 1) as u32, size);
        let blk = tex_block_spec(t, (k - 1) as u32, size);
        lemma_blocks_run(t, s, (k - 1) as u32, size);
        let m = run_model(s, prev);
        lemma_run_concat(s, prev, blk);
        lemma_block_run(t, m, (k - 1) as u32, size);
    }
}

/// Law: a planned command sequence, run from a fresh context, never raises
/// the driver's error flag; deleting every texture and waiting for the
/// completion barrier leaves no name, no storage and no binding behind.
pub proof fn lemma_plan_runs_clean(t: Test, count: u32, size: u32)
    ensures
        ({
            let e = run_model(init_model(), plan_spec(t, count, size));
            &&& !e.error
            &&& e.generated == 0
            &&& e.live == 0
            &&& !e.bound
        }),
{
    let head = seq![Cmd::GenTextures { count }];
    let blocks = blocks_spec(t, count, size);
    let tail = seq![Cmd::DeleteTextures { count }, Cmd::Finish];
    assert(plan_spec(t, count, size) == head + blocks + tail);
    lemma_run_concat(init_model(), head + blocks, tail);
    lemma_run_concat(init_model(), head, blocks);

    lemma_run_one(init_model(), Cmd::GenTextures { count });
    let s1 = run_model(init_model(), head);

    lemma_blocks_run(t, s1, count, size);
    let s2 = run_model(s1, blocks);

    lemma_run_two(s2, Cmd::DeleteTextures { count }, Cmd::Finish);
}

} // verus!

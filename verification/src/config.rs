//! Test configurations: which texture target each test binds, how it
//! allocates storage, the fixed sweep list, and the command-line selector.

use vstd::prelude::*;

verus! {

/// Number of texture objects each test allocates.
pub const TEXTURE_COUNT: u32 = 100;

/// Edge length, in texels, of every (square) texture.
pub const TEXTURE_SIZE: u32 = 2048;

/// Pause between two tests of the sweep, giving the driver time to reclaim
/// memory asynchronously.
pub const DELAY_MS: u64 = 1000;

/// The texture target a test binds its textures to.
#[derive(Clone, Copy, Debug, PartialEq, Eq, Structural)]
pub enum TargetKind {
    /// An ordinary mipmappable 2D texture target.
    Planar2d,
    /// A rectangular (non-mipmapped, unnormalized) texture target.
    Rectangle,
}

/// How a test allocates texture storage.
#[derive(Clone, Copy, Debug, PartialEq, Eq, Structural)]
pub enum Allocation {
    /// The legacy image-upload path; when `limit_max` is set the maximum mip
    /// level is clamped to zero before the upload.
    Old { limit_max: bool },
    /// The immutable-storage allocation path, a single mip level.
    Storage,
}

/// One test configuration: a target and an allocation strategy.
#[derive(Clone, Copy, Debug, PartialEq, Eq, Structural)]
pub struct Test {
    pub target: TargetKind,
    pub alloc: Allocation,
}

/// The fixed, ordered list of configurations the full sweep runs.
pub open spec fn tests_spec() -> Seq<Test> {
    seq![
        Test { target: TargetKind::Planar2d, alloc: Allocation::Old { limit_max: false } },
        Test { target: TargetKind::Planar2d, alloc: Allocation::Old { limit_max: true } },
        Test { target: TargetKind::Planar2d, alloc: Allocation::Storage },
        Test { target: TargetKind::Rectangle, alloc: Allocation::Old { limit_max: false } },
        Test { target: TargetKind::Rectangle, alloc: Allocation::Storage },
    ]
}

/// The sweep list as a vector, in sweep order.
pub fn all_tests() -> (r: Vec<Test>)
    ensures
        r@ == tests_spec(),
{
    let mut v: Vec<Test> = Vec::new();
    v.push(Test { target: TargetKind::Planar2d, alloc: Allocation::Old { limit_max: false } });
    v.push(Test { target: TargetKind::Planar2d, alloc: Allocation::Old { limit_max: true } });
    v.push(Test { target: TargetKind::Planar2d, alloc: Allocation::Storage });
    v.push(Test { target: TargetKind::Rectangle, alloc: Allocation::Old { limit_max: false } });
    v.push(Test { target: TargetKind::Rectangle, alloc: Allocation::Storage });
    proof {
        assert(v@ =~= tests_spec());
    }
    v
}

/// Why a command-line selector was rejected.
#[derive(Clone, Copy, Debug, PartialEq, Eq, Structural)]
pub enum SelectError {
    /// The target token is neither of the two recognized target names.
    WrongTarget,
    /// The allocation token is neither of the two recognized strategy names.
    WrongAlloc,
    /// The mip-limit modifier is neither `true` nor `false`.
    WrongFlag,
}

/// The selector token that names a target.
pub open spec fn target_token(t: TargetKind) -> Seq<char> {
    match t {
        TargetKind::Planar2d => "2d"@,
        TargetKind::Rectangle => "rect"@,
    }
}

/// The selector token that names an allocation strategy.
pub open spec fn alloc_token(a: Allocation) -> Seq<char> {
    match a {
        Allocation::Old { .. } => "image"@,
        Allocation::Storage => "storage"@,
    }
}

/// The suffix a description carries when the mip-level clamp is on.
pub open spec fn limit_suffix(a: Allocation) -> Seq<char> {
    match a {
        Allocation::Old { limit_max } => if limit_max {
            " limit"@
        } else {
            Seq::empty()
        },
        Allocation::Storage => Seq::empty(),
    }
}

/// The one-line description of a configuration, as it appears in a report
/// line: target token, a space, allocation token, and the clamp suffix.
pub open spec fn describe_spec(t: Test) -> Seq<char> {
    target_token(t.target) + " "@ + alloc_token(t.alloc) + limit_suffix(t.alloc)
}

/// The target a selector token picks, if any.
pub open spec fn target_of_token(s: Seq<char>) -> Option<TargetKind> {
    if s == "2d"@ {
        Some(TargetKind::Planar2d)
    } else if s == "rect"@ {
        Some(TargetKind::Rectangle)
    } else {
        None
    }
}

/// The allocation strategy a selector token picks, if any; `limit` is the
/// mip-limit modifier, which only the legacy path reads.
pub open spec fn alloc_of_token(s: Seq<char>, limit: bool) -> Option<Allocation> {
    if s == "storage"@ {
        Some(Allocation::Storage)
    } else if s == "image"@ {
        Some(Allocation::Old { limit_max: limit })
    } else {
        None
    }
}

/// The configuration two selector tokens pick: the target token is checked
/// first, so an unrecognized target wins over an unrecognized strategy.
pub open spec fn selected_spec(target_tok: Seq<char>, alloc_tok: Seq<char>, limit: bool) -> Result<
    Test,
    SelectError,
> {
    match target_of_token(target_tok) {
        None => Err(SelectError::WrongTarget),
        Some(tk) => match alloc_of_token(alloc_tok, limit) {
            None => Err(SelectError::WrongAlloc),
            Some(al) => Ok(Test { target: tk, alloc: al }),
        },
    }
}

/// The meaning of the optional boolean modifier token.
pub open spec fn flag_spec(s: Seq<char>) -> Result<bool, SelectError> {
    if s == "true"@ {
        Ok(true)
    } else if s == "false"@ {
        Ok(false)
    } else {
        Err(SelectError::WrongFlag)
    }
}

/// Character-for-character string equality.
fn str_eq(a: &str, b: &str) -> (r: bool)
    ensures
        r == (a@ == b@),
{
    let n = a.unicode_len();
    if n != b.unicode_len() {
        return false;
    }
    let mut i: usize = 0;
    while i < n
        invariant
            i <= n,
            n == a@.len(),
            n == b@.len(),
            forall|j: int| 0 <= j < i ==> a@[j] == b@[j],
        decreases n - i,
    {
        if a.get_char(i) != b.get_char(i) {
            return false;
        }
        i += 1;
    }
    proof {
        assert(a@ =~= b@);
    }
    true
}

/// Picks the configuration the command-line tokens name, or says which token
/// was not recognized. No graphics work happens before this decision.
pub fn select_test(target_tok: &str, alloc_tok: &str, limit: bool) -> (r: Result<
    Test,
    SelectError,
>)
    ensures
        r == selected_spec(target_tok@, alloc_tok@, limit),
{
    let target = if str_eq(target_tok, "2d") {
        TargetKind::Planar2d
    } else if str_eq(target_tok, "rect") {
        TargetKind::Rectangle
    } else {
        return Err(SelectError::WrongTarget);
    };
    if str_eq(alloc_tok, "storage") {
        Ok(Test { target, alloc: Allocation::Storage })
    } else if str_eq(alloc_tok, "image") {
        Ok(Test { target, alloc: Allocation::Old { limit_max: limit } })
    } else {
        Err(SelectError::WrongAlloc)
    }
}

/// Reads the optional mip-limit modifier token.
pub fn parse_flag(s: &str) -> (r: Result<bool, SelectError>)
    ensures
        r == flag_spec(s@),
{
    if str_eq(s, "true") {
        Ok(true)
    } else if str_eq(s, "false") {
        Ok(false)
    } else {
        Err(SelectError::WrongFlag)
    }
}

impl Test {
    /// The configuration description used in every report line.
    pub fn describe(&self) -> (r: String)
        ensures
            r@ == describe_spec(*self),
    {
        let mut s = match self.target {
            TargetKind::Planar2d => String::from_str("2d"),
            TargetKind::Rectangle => String::from_str("rect"),
        };
        s.append(" ");
        match self.alloc {
            Allocation::Old { limit_max } => {
                s.append("image");
                if limit_max {
                    s.append(" limit");
                }
            },
            Allocation::Storage => s.append("storage"),
        }
        proof {
            assert(s@ =~= describe_spec(*self));
        }
        s
    }
}

/// Law: a test selected by recognized tokens is described by those very
/// tokens, so the single report line of a selected test names its selector.
pub proof fn lemma_selected_test_description(
    target_tok: Seq<char>,
    alloc_tok: Seq<char>,
    limit: bool,
    t: Test,
)
    requires
        selected_spec(target_tok, alloc_tok, limit) == Result::<Test, SelectError>::Ok(t),
    ensures
        describe_spec(t) == target_tok + " "@ + alloc_tok + limit_suffix(t.alloc),
        t.alloc matches Allocation::Old { limit_max } ==> limit_max == limit,
{
    assert(target_token(t.target) == target_tok);
    assert(alloc_token(t.alloc) == alloc_tok);
}

} // verus!

//! The two revisions that the bindings diff tool compares, as given on its
//! command line.
use vstd::prelude::*;
use vstd::string::{StrSliceExecFns, StringExecFns};

use crate::text::{decimal, decimal_string, eq_ignore_ascii_case, str_eq_ignore_ascii_case};

verus! {

/// How the latest main branch is written on the command line.
pub const DIFF_BASE_LATEST_MAIN_DISPLAY_STRING: &'static str = "latest-main";

/// How the local working tree is written on the command line.
pub const DIFF_TARGET_LOCAL_DISPLAY_STRING: &'static str = "local";

/// The text of a revision given as a git revision.
pub open spec fn git_rev_text(rev: Seq<char>) -> Seq<char> {
    "Git Rev("@ + rev + ")"@
}

/// The base to diff against.
#[derive(Debug, Clone, PartialEq, Eq)]
pub enum DiffBase {
    /// The latest commit of the main branch.
    LatestMain,
    /// A git revision.
    GitRev(String),
}

/// The target to diff.
#[derive(Debug, Clone, PartialEq, Eq)]
pub enum DiffTarget {
    /// The local working tree.
    Local,
    /// A git revision.
    GitRev(String),
}

fn git_rev_string(rev: &String) -> (r: String)
    ensures
        r@ == git_rev_text(rev@),
{
    let mut s = "Git Rev(".to_owned();
    s.append(rev.as_str());
    s.append(")");
    s
}

impl DiffBase {
    /// Reads a base from a command-line argument: `latest-main`, in any ASCII
    /// case, names the main branch; anything else is a git revision.
    pub fn from_arg(s: String) -> (r: DiffBase)
        ensures
            r == (if eq_ignore_ascii_case(s@, DIFF_BASE_LATEST_MAIN_DISPLAY_STRING@) {
                DiffBase::LatestMain
            } else {
                DiffBase::GitRev(s)
            }),
    {
        if str_eq_ignore_ascii_case(s.as_str(), DIFF_BASE_LATEST_MAIN_DISPLAY_STRING) {
            DiffBase::LatestMain
        } else {
            DiffBase::GitRev(s)
        }
    }

    /// The text shown for this base: `latest-main` or `Git Rev(<rev>)`.
    pub fn to_display_string(&self) -> (r: String)
        ensures
            r@ == match self {
                DiffBase::LatestMain => DIFF_BASE_LATEST_MAIN_DISPLAY_STRING@,
                DiffBase::GitRev(rev) => git_rev_text(rev@),
            },
    {
        match self {
            DiffBase::LatestMain => DIFF_BASE_LATEST_MAIN_DISPLAY_STRING.to_owned(),
            DiffBase::GitRev(rev) => git_rev_string(rev),
        }
    }
}

impl DiffTarget {
    /// Reads a target from a command-line argument: `local`, in any ASCII
    /// case, names the working tree; anything else is a git revision.
    pub fn from_arg(s: String) -> (r: DiffTarget)
        ensures
            r == (if eq_ignore_ascii_case(s@, DIFF_TARGET_LOCAL_DISPLAY_STRING@) {
                DiffTarget::Local
            } else {
                DiffTarget::GitRev(s)
            }),
    {
        if str_eq_ignore_ascii_case(s.as_str(), DIFF_TARGET_LOCAL_DISPLAY_STRING) {
            DiffTarget::Local
        } else {
            DiffTarget::GitRev(s)
        }
    }

    /// The text shown for this target: `local` or `Git Rev(<rev>)`.
    pub fn to_display_string(&self) -> (r: String)
        ensures
            r@ == match self {
                DiffTarget::Local => DIFF_TARGET_LOCAL_DISPLAY_STRING@,
                DiffTarget::GitRev(rev) => git_rev_text(rev@),
            },
    {
        match self {
            DiffTarget::Local => DIFF_TARGET_LOCAL_DISPLAY_STRING.to_owned(),
            DiffTarget::GitRev(rev) => git_rev_string(rev),
        }
    }
}

/// `n` spaces.
pub open spec fn spaces(n: nat) -> Seq<char> {
    Seq::new(n, |_i: int| ' ')
}

/// `s` padded on the right with spaces to at least `width` characters.
pub open spec fn pad_right(s: Seq<char>, width: nat) -> Seq<char> {
    if s.len() >= width {
        s
    } else {
        s + spaces((width - s.len()) as nat)
    }
}

/// Width of each line-number column of a printed diff.
pub const LINE_NUMBER_WIDTH: usize = 4;

/// The line-number column of one line of a printed diff: the line's number
/// counted from one and left-aligned, or blank where the line does not occur
/// on that side.
pub open spec fn line_number_text(index: Option<usize>) -> Seq<char> {
    match index {
        Some(i) => pad_right(decimal((i + 1) as nat), LINE_NUMBER_WIDTH as nat),
        None => spaces(LINE_NUMBER_WIDTH as nat),
    }
}

/// Renders the line-number column for a line at the zero-based `index`, or
/// for a line that the side does not have.
pub fn line_number_column(index: Option<usize>) -> (r: String)
    ensures
        r@ == line_number_text(index),
{
    let mut s = match index {
        Some(i) => decimal_string(i as u128 + 1),
        None => String::new(),
    };
    let ghost start = s@;
    let n = s.unicode_len();
    let mut k = n;
    while k < LINE_NUMBER_WIDTH
        invariant
            n <= k,
            n == start.len(),
            k <= LINE_NUMBER_WIDTH || k == n,
            s@ == start + spaces((k - n) as nat),
        decreases LINE_NUMBER_WIDTH - k,
    {
        proof { reveal_strlit(" "); }
        s.append(" ");
        k += 1;
        assert(s@ =~= start + spaces((k - n) as nat));
    }
    assert(s@ =~= line_number_text(index));
    s
}

} // verus!

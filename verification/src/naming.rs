//! Output naming policy.
//!
//! Given a source path, an optional user-chosen base name, the item's index
//! within the batch and the batch size, this module derives the path of the
//! output file. The derived file always lives in the same directory as its
//! source. When no base name is given, a caller-supplied token (in practice a
//! freshly drawn 128-bit identifier) becomes the file name, so the policy
//! itself is a pure function of its arguments.
//!
//! The numbered scheme for a named batch avoids collisions between the
//! batch's own items only: it deliberately does not look at the disk, so a
//! pre-existing file with the same derived name is overwritten. That is a
//! documented limitation of the policy, kept rather than corrected silently.

use vstd::prelude::*;

verus! {

/// The extension every output file carries.
pub open spec fn webp_suffix() -> Seq<char> {
    ".webp"@
}

/// The character for one decimal digit.
pub open spec fn digit_char(d: int) -> char {
    if d == 0 {
        '0'
    } else if d == 1 {
        '1'
    } else if d == 2 {
        '2'
    } else if d == 3 {
        '3'
    } else if d == 4 {
        '4'
    } else if d == 5 {
        '5'
    } else if d == 6 {
        '6'
    } else if d == 7 {
        '7'
    } else if d == 8 {
        '8'
    } else {
        '9'
    }
}

/// The decimal rendering of a number, most significant digit first.
pub open spec fn dec_string(n: nat) -> Seq<char>
    decreases n,
{
    if n < 10 {
        seq![digit_char(n as int)]
    } else {
        dec_string(n / 10) + seq![digit_char((n % 10) as int)]
    }
}

fn digit_str(d: usize) -> (r: &'static str)
    requires
        d < 10,
    ensures
        r@ == seq![digit_char(d as int)],
{
    let r: &'static str = if d == 0 {
        "0"
    } else if d == 1 {
        "1"
    } else if d == 2 {
        "2"
    } else if d == 3 {
        "3"
    } else if d == 4 {
        "4"
    } else if d == 5 {
        "5"
    } else if d == 6 {
        "6"
    } else if d == 7 {
        "7"
    } else if d == 8 {
        "8"
    } else {
        "9"
    };
    proof {
        reveal_strlit("0");
        reveal_strlit("1");
        reveal_strlit("2");
        reveal_strlit("3");
        reveal_strlit("4");
        reveal_strlit("5");
        reveal_strlit("6");
        reveal_strlit("7");
        reveal_strlit("8");
        reveal_strlit("9");
        assert(r@ =~= seq![digit_char(d as int)]);
    }
    r
}

/// Renders a number in decimal, matching [`dec_string`].
pub fn usize_to_string(n: usize) -> (r: String)
    ensures
        r@ == dec_string(n as nat),
    decreases n,
{
    if n < 10 {
        String::from_str(digit_str(n))
    } else {
        let mut s = usize_to_string(n / 10);
        s.append(digit_str(n % 10));
        proof {
            assert(s@ =~= dec_string(n as nat));
        }
        s
    }
}

/// The length of a path's directory prefix: everything up to and including
/// the last `/`, or nothing when the path has no separator.
pub open spec fn dir_prefix_len(p: Seq<char>) -> int
    decreases p.len(),
{
    if p.len() == 0 {
        0
    } else if p[p.len() - 1] == '/' {
        p.len() as int
    } else {
        dir_prefix_len(p.drop_last())
    }
}

proof fn lemma_dir_prefix_len_at(p: Seq<char>, i: int)
    requires
        0 <= i <= p.len(),
        forall|j: int| i <= j < p.len() ==> p[j] != '/',
        i > 0 ==> p[i - 1] == '/',
    ensures
        dir_prefix_len(p) == i,
    decreases p.len(),
{
    if i < p.len() {
        let q = p.drop_last();
        assert(forall|j: int| i <= j < q.len() ==> q[j] == p[j]);
        lemma_dir_prefix_len_at(q, i);
    }
}

/// Index just past the last `/` of the path, or `0` when it has none.
pub fn dir_prefix_end(path: &str) -> (r: usize)
    ensures
        r == dir_prefix_len(path@),
        r <= path@.len(),
{
    let n = path.unicode_len();
    let mut i = n;
    while i > 0
        invariant
            i <= n,
            n == path@.len(),
            forall|j: int| i <= j < path@.len() ==> path@[j] != '/',
        decreases i,
    {
        let c = path.get_char(i - 1);
        if c == '/' {
            proof {
                lemma_dir_prefix_len_at(path@, i as int);
            }
            return i;
        }
        i = i - 1;
    }
    proof {
        lemma_dir_prefix_len_at(path@, 0);
    }
    0
}

/// The given path with its file name replaced by `name`.
pub open spec fn spec_with_file_name(path: Seq<char>, name: Seq<char>) -> Seq<char> {
    path.subrange(0, dir_prefix_len(path)) + name
}

/// Replaces the file-name part of `path` (everything after the last `/`)
/// with `name`.
pub fn with_file_name(path: &str, name: &str) -> (r: String)
    ensures
        r@ == spec_with_file_name(path@, name@),
{
    let k = dir_prefix_end(path);
    let prefix = path.substring_char(0, k);
    let r = String::from_str(prefix).concat(name);
    proof {
        assert(r@ =~= spec_with_file_name(path@, name@));
    }
    r
}

/// The derived output file name: the token alone when no base name was
/// given; the bare base name for a batch of one; the base name with a
/// one-based index for a larger batch.
pub open spec fn spec_output_file_name(
    base: Option<Seq<char>>,
    index: int,
    batch_size: int,
    token: Seq<char>,
) -> Seq<char> {
    match base {
        Option::None => token + webp_suffix(),
        Option::Some(b) => if batch_size == 1 {
            b + webp_suffix()
        } else {
            b + dec_string((index + 1) as nat) + webp_suffix()
        },
    }
}

/// The derived output path: the output file name, placed in the source
/// path's directory.
pub open spec fn spec_output_path(
    source: Seq<char>,
    base: Option<Seq<char>>,
    index: int,
    batch_size: int,
    token: Seq<char>,
) -> Seq<char> {
    spec_with_file_name(source, spec_output_file_name(base, index, batch_size, token))
}

/// The base name as a mathematical value.
pub open spec fn base_view(o: Option<String>) -> Option<Seq<char>> {
    match o {
        Option::Some(s) => Option::Some(s@),
        Option::None => Option::None,
    }
}

/// Derives the output path for one batch item.
pub fn derive_output_path(
    source_path: &str,
    output_base_name: &Option<String>,
    index: usize,
    batch_size: usize,
    token: &str,
) -> (r: String)
    requires
        index < batch_size,
    ensures
        r@ == spec_output_path(
            source_path@,
            base_view(*output_base_name),
            index as int,
            batch_size as int,
            token@,
        ),
{
    let name: String = match output_base_name {
        Option::None => String::from_str(token).concat(".webp"),
        Option::Some(b) => {
            if batch_size == 1 {
                b.clone().concat(".webp")
            } else {
                let idx = usize_to_string(index + 1);
                b.clone().concat(idx.as_str()).concat(".webp")
            }
        },
    };
    with_file_name(source_path, name.as_str())
}

/// A character that can occur in a fresh token: a hyphen or a lowercase
/// hexadecimal digit.
pub open spec fn is_token_char(c: char) -> bool {
    c == '-' || (48 <= c as u32 && c as u32 <= 57) || (97 <= c as u32 && c as u32 <= 102)
}

/// The shape of a fresh token: the 36-character hyphenated form of a
/// 128-bit identifier.
pub open spec fn valid_token(t: Seq<char>) -> bool {
    t.len() == 36 && (forall|i: int| 0 <= i < t.len() ==> is_token_char(#[trigger] t[i]))
}

/// Relies on uuid::Uuid::new_v4 and uuid's Display impl: the hyphenated
/// rendering of a version-4 identifier is 36 characters, all lowercase
/// hexadecimal digits or hyphens. The value drawn is random, so nothing
/// more is promised of it.
#[verifier::external_body]
pub(crate) fn fresh_token() -> (r: String)
    ensures
        valid_token(r@),
{
    uuid::Uuid::new_v4().to_string()
}

/// With an output base name present, the derived path depends only on the
/// source path, the base name, the index and the batch size: the token does
/// not enter it.
pub proof fn lemma_output_path_ignores_token(
    source: Seq<char>,
    base: Seq<char>,
    index: int,
    batch_size: int,
    t1: Seq<char>,
    t2: Seq<char>,
)
    ensures
        spec_output_path(source, Option::Some(base), index, batch_size, t1)
            == spec_output_path(source, Option::Some(base), index, batch_size, t2),
{
}

} // verus!

//! Parsers for the host command output the volume lifecycle consults:
//! `df` byte counts, the filesystem block size, and the mount table.
//!
//! The commands themselves run outside the library; these functions take
//! their captured output as plain text.

use vstd::prelude::*;
use vstd::string::*;
use crate::errors::NeptisError;
use crate::errors::is_internal_error;
use crate::strutil::has_substr;
use crate::strutil::contains_sub;
use crate::strutil::concat_str;
use crate::strutil::find_char;
use crate::strutil::is_space_char;
use crate::strutil::is_space_exec;
use crate::strutil::is_prefix;
use crate::strutil::starts_with_str;
use crate::strutil::suffix_from;
use crate::strutil::trim_spec;
use crate::strutil::trim_str;

verus! {

/// Usage of one mounted filesystem, in bytes.
#[derive(Debug)]
pub struct MountStats {
    pub path: String,
    pub b_total: usize,
    pub b_used: usize,
    pub b_avail: usize,
}

/// A decimal digit.
pub open spec fn is_digit(c: char) -> bool {
    '0' <= c && c <= '9'
}

/// The value of a decimal digit.
pub open spec fn digit_val(c: char) -> int {
    c as int - '0' as int
}

/// Every character of `s` is a decimal digit.
pub open spec fn all_digits(s: Seq<char>) -> bool {
    forall|i: int| 0 <= i < s.len() ==> is_digit(#[trigger] s[i])
}

/// The number `s` denotes in decimal.
pub open spec fn dec_val(s: Seq<char>) -> int
    decreases s.len(),
{
    if s.len() == 0 {
        0
    } else {
        dec_val(s.drop_last()) * 10 + digit_val(s.last())
    }
}

proof fn lemma_dec_val_nonneg(s: Seq<char>)
    requires
        all_digits(s),
    ensures
        dec_val(s) >= 0,
    decreases s.len(),
{
    if s.len() > 0 {
        assert(all_digits(s.drop_last()));
        lemma_dec_val_nonneg(s.drop_last());
    }
}

proof fn lemma_dec_val_prefix(s: Seq<char>, k: int)
    requires
        all_digits(s),
        0 <= k <= s.len(),
    ensures
        dec_val(s) >= dec_val(s.take(k)),
    decreases s.len() - k,
{
    if k < s.len() {
        lemma_dec_val_prefix(s, k + 1);
        assert(s.take(k + 1).drop_last() =~= s.take(k));
        assert(all_digits(s.take(k + 1)));
        assert(all_digits(s.take(k)));
        lemma_dec_val_nonneg(s.take(k));
        assert(dec_val(s.take(k + 1)) >= dec_val(s.take(k)));
    } else {
        assert(s.take(k) =~= s);
    }
}

/// Reads an unsigned decimal number; fails on an empty string, a
/// non-digit, or a value that does not fit in `usize`.
pub fn parse_usize(s: &str) -> (r: Option<usize>)
    ensures
        r is Some <==> s@.len() > 0 && all_digits(s@) && dec_val(s@) <= usize::MAX,
        r matches Some(v) ==> v == dec_val(s@),
{
    let n = s.unicode_len();
    if n == 0 {
        return None;
    }
    let mut acc: usize = 0;
    let mut i: usize = 0;
    while i < n
        invariant
            i <= n,
            n == s@.len(),
            all_digits(s@.take(i as int)),
            acc == dec_val(s@.take(i as int)),
        decreases n - i,
    {
        let c = s.get_char(i);
        if c < '0' || c > '9' {
            return None;
        }
        let d: usize = (c as u32 as usize) - 48;
        proof {
            assert(s@.take(i + 1).drop_last() =~= s@.take(i as int));
            assert(s@.take(i + 1).last() == s@[i as int]);
            assert(all_digits(s@.take(i + 1)));
            assert(d == digit_val(s@[i as int]));
        }
        if acc > (usize::MAX - d) / 10 {
            proof {
                assert(acc * 10 + d > usize::MAX) by (nonlinear_arith)
                    requires
                        acc > (usize::MAX - d) / 10,
                        d <= 9,
                ;
                if all_digits(s@) {
                    lemma_dec_val_prefix(s@, i + 1);
                }
            }
            return None;
        }
        proof {
            assert(acc * 10 + d <= usize::MAX) by (nonlinear_arith)
                requires
                    acc <= (usize::MAX - d) / 10,
                    d <= 9,
            ;
        }
        acc = acc * 10 + d;
        i += 1;
    }
    proof {
        assert(s@.take(n as int) =~= s@);
    }
    Some(acc)
}

/// Index of the first whitespace character in `s`, or `s.len()`.
pub open spec fn first_ws_idx(s: Seq<char>) -> int
    decreases s.len(),
{
    if s.len() == 0 {
        0
    } else if is_space_char(s[0]) {
        0
    } else {
        1 + first_ws_idx(s.subrange(1, s.len() as int))
    }
}

/// [`first_ws_idx`] lands inside the string (or just past its end).
pub proof fn lemma_first_ws_bounds(s: Seq<char>)
    ensures
        0 <= first_ws_idx(s) <= s.len(),
    decreases s.len(),
{
    if s.len() > 0 && !is_space_char(s[0]) {
        lemma_first_ws_bounds(s.subrange(1, s.len() as int));
    }
}

proof fn lemma_first_ws_idx(s: Seq<char>, i: int)
    requires
        0 <= i <= s.len(),
        forall|j: int| 0 <= j < i ==> !is_space_char(s[j]),
        i == s.len() || is_space_char(s[i]),
    ensures
        first_ws_idx(s) == i,
    decreases i,
{
    if i > 0 {
        let t = s.subrange(1, s.len() as int);
        lemma_first_ws_idx(t, i - 1);
    }
}

/// The whitespace-separated tokens of `s`, in order.
pub open spec fn ws_tokens(s: Seq<char>) -> Seq<Seq<char>>
    decreases s.len(),
    via ws_tokens_decreases
{
    if s.len() == 0 {
        Seq::empty()
    } else if is_space_char(s[0]) {
        ws_tokens(s.subrange(1, s.len() as int))
    } else {
        seq![s.subrange(0, first_ws_idx(s))] + ws_tokens(
            s.subrange(first_ws_idx(s), s.len() as int),
        )
    }
}

#[via_fn]
proof fn ws_tokens_decreases(s: Seq<char>) {
    if s.len() > 0 && !is_space_char(s[0]) {
        lemma_first_ws_bounds(s.subrange(1, s.len() as int));
        lemma_first_ws_bounds(s);
    }
}

/// Splits `s` into its whitespace-separated tokens.
pub fn split_ws(s: &str) -> (r: Vec<String>)
    ensures
        crate::strutil::str_views(r@) == ws_tokens(s@),
    decreases s@.len(),
{
    let n = s.unicode_len();
    if n == 0 {
        let r: Vec<String> = Vec::new();
        proof {
            assert(crate::strutil::str_views(r@) =~= ws_tokens(s@));
        }
        return r;
    }
    if is_space_exec(s.get_char(0)) {
        return split_ws(suffix_from(s, 1));
    }
    let mut i: usize = 0;
    while i < n && !is_space_exec(s.get_char(i))
        invariant
            i <= n,
            n == s@.len(),
            forall|j: int| 0 <= j < i ==> !is_space_char(s@[j]),
        decreases n - i,
    {
        i += 1;
    }
    proof {
        lemma_first_ws_idx(s@, i as int);
    }
    let tok = String::from_str(s.substring_char(0, i));
    let rest = split_ws(suffix_from(s, i));
    let mut out: Vec<String> = Vec::new();
    out.push(tok);
    let ghost restv = crate::strutil::str_views(rest@);
    let mut k: usize = 0;
    while k < rest.len()
        invariant
            k <= rest@.len(),
            restv == crate::strutil::str_views(rest@),
            out@.len() == k + 1,
            out@[0]@ == s@.subrange(0, first_ws_idx(s@)),
            forall|j: int| 0 <= j < k ==> (#[trigger] out@[j + 1])@ == restv[j],
        decreases rest@.len() - k,
    {
        out.push(rest[k].clone());
        k += 1;
    }
    proof {
        let toks = ws_tokens(s@);
        assert(toks == seq![s@.subrange(0, first_ws_idx(s@))] + ws_tokens(
            s@.subrange(first_ws_idx(s@), s@.len() as int),
        ));
        assert(restv == ws_tokens(s@.subrange(i as int, s@.len() as int)));
        assert forall|q: int| 0 <= q < out@.len() implies crate::strutil::str_views(out@)[q]
            == toks[q] by {
            if q > 0 {
                let j = q - 1;
                assert((out@[j + 1])@ == restv[j]);
                assert(toks[q] == restv[q - 1]);
            }
        }
        assert(crate::strutil::str_views(out@) =~= toks);
    }
    out
}

/// The lines of `s`: what splitting on `\n` yields, in order.
pub open spec fn lines_of(s: Seq<char>) -> Seq<Seq<char>>
    decreases s.len(),
    via lines_of_decreases
{
    let i = crate::strutil::char_idx(s, '\n');
    if i == s.len() {
        seq![s]
    } else {
        seq![s.subrange(0, i)] + lines_of(s.subrange(i + 1, s.len() as int))
    }
}

#[via_fn]
proof fn lines_of_decreases(s: Seq<char>) {
    crate::strutil::lemma_char_idx_bounds(s, '\n');
}

/// Splits `s` at every `\n`.
pub fn split_lines(s: &str) -> (r: Vec<String>)
    ensures
        crate::strutil::str_views(r@) == lines_of(s@),
    decreases s@.len(),
{
    let n = s.unicode_len();
    let found = find_char(s, '\n');
    match found {
        None => {
            proof {
                crate::strutil::lemma_char_idx(s@, '\n', n as int);
            }
            let mut out: Vec<String> = Vec::new();
            out.push(String::from_str(s));
            proof {
                assert(crate::strutil::str_views(out@) =~= lines_of(s@));
            }
            out
        },
        Some(i) => {
            proof {
                crate::strutil::lemma_char_idx(s@, '\n', i as int);
            }
            let head = String::from_str(s.substring_char(0, i));
            let rest = split_lines(suffix_from(s, i + 1));
            let mut out: Vec<String> = Vec::new();
            out.push(head);
            let ghost restv = crate::strutil::str_views(rest@);
            let mut k: usize = 0;
            while k < rest.len()
                invariant
                    k <= rest@.len(),
                    restv == crate::strutil::str_views(rest@),
                    out@.len() == k + 1,
                    out@[0]@ == s@.subrange(0, crate::strutil::char_idx(s@, '\n')),
                    forall|j: int| 0 <= j < k ==> (#[trigger] out@[j + 1])@ == restv[j],
                decreases rest@.len() - k,
            {
                out.push(rest[k].clone());
                k += 1;
            }
            proof {
                let lns = lines_of(s@);
                assert(lns == seq![s@.subrange(0, i as int)] + lines_of(
                    s@.subrange(i + 1, s@.len() as int),
                ));
                assert(restv == lines_of(s@.subrange(i + 1, s@.len() as int)));
                assert forall|q: int| 0 <= q < out@.len() implies crate::strutil::str_views(
                    out@,
                )[q] == lns[q] by {
                    if q > 0 {
                        let j = q - 1;
                        assert((out@[j + 1])@ == restv[j]);
                        assert(lns[q] == restv[q - 1]);
                    }
                }
                assert(crate::strutil::str_views(out@) =~= lns);
            }
            out
        },
    }
}

/// What `df <path> -B1` reports: total, used and available bytes, read
/// from the second line's second, third and fourth columns.
pub open spec fn df_stats(out: Seq<char>) -> Option<(int, int, int)> {
    let lines = lines_of(out);
    if lines.len() < 2 {
        None
    } else {
        let toks = ws_tokens(lines[1]);
        if toks.len() < 4 {
            None
        } else {
            if toks[1].len() > 0 && all_digits(toks[1]) && dec_val(toks[1]) <= usize::MAX
                && toks[2].len() > 0 && all_digits(toks[2]) && dec_val(toks[2]) <= usize::MAX
                && toks[3].len() > 0 && all_digits(toks[3]) && dec_val(toks[3]) <= usize::MAX {
                Some((dec_val(toks[1]), dec_val(toks[2]), dec_val(toks[3])))
            } else {
                None
            }
        }
    }
}

/// Reads the byte counts out of captured `df` output for `mount_path`.
///
/// Fails on an empty mount path or on output that does not carry the
/// expected columns.
pub fn get_system_info(mount_path: &str, df_output: &str) -> (r: Result<MountStats, NeptisError>)
    ensures
        r is Ok <==> mount_path@.len() > 0 && df_stats(df_output@) is Some,
        r matches Ok(st) ==> {
            &&& st.path@ == mount_path@
            &&& df_stats(df_output@) == Some(
                (st.b_total as int, st.b_used as int, st.b_avail as int),
            )
        },
        r matches Err(e) ==> is_internal_error(e, "Failed to get system info!"@),
{
    if mount_path.unicode_len() == 0 {
        return Err(NeptisError::InternalError(String::from_str("Failed to get system info!")));
    }
    let lines = split_lines(df_output);
    if lines.len() < 2 {
        return Err(NeptisError::InternalError(String::from_str("Failed to get system info!")));
    }
    let toks = split_ws(lines[1].as_str());
    proof {
        assert(lines@[1]@ == lines_of(df_output@)[1]);
        assert(crate::strutil::str_views(toks@) == ws_tokens(lines_of(df_output@)[1]));
    }
    if toks.len() < 4 {
        return Err(NeptisError::InternalError(String::from_str("Failed to get system info!")));
    }
    proof {
        let tv = ws_tokens(lines_of(df_output@)[1]);
        assert(crate::strutil::str_views(toks@)[1] == toks@[1]@);
        assert(crate::strutil::str_views(toks@)[2] == toks@[2]@);
        assert(crate::strutil::str_views(toks@)[3] == toks@[3]@);
        assert(toks@[1]@ == tv[1]);
        assert(toks@[2]@ == tv[2]);
        assert(toks@[3]@ == tv[3]);
    }
    let b_total = parse_usize(toks[1].as_str());
    let b_used = parse_usize(toks[2].as_str());
    let b_avail = parse_usize(toks[3].as_str());
    match (b_total, b_used, b_avail) {
        (Some(t), Some(u), Some(a)) => Ok(
            MountStats {
                path: String::from_str(mount_path),
                b_total: t,
                b_used: u,
                b_avail: a,
            },
        ),
        _ => Err(NeptisError::InternalError(String::from_str("Failed to get system info!"))),
    }
}

/// What `tune2fs -l | grep 'Block size'` reports: the number after the
/// `Block size:` label.
pub open spec fn block_size_of(out: Seq<char>) -> Option<int> {
    if is_prefix("Block size:"@, out) {
        let rest = trim_spec(out.subrange(11, out.len() as int));
        if rest.len() > 0 && all_digits(rest) && dec_val(rest) <= usize::MAX {
            Some(dec_val(rest))
        } else {
            None
        }
    } else {
        None
    }
}

/// Reads the filesystem block size out of captured `tune2fs` output.
pub fn get_img_block_size(tune2fs_output: &str) -> (r: Result<usize, NeptisError>)
    ensures
        r is Ok <==> block_size_of(tune2fs_output@) is Some,
        r matches Ok(v) ==> block_size_of(tune2fs_output@) == Some(v as int),
        r matches Err(e) ==> is_internal_error(e, "Failed to determine block size of FS"@),
{
    if !starts_with_str(tune2fs_output, "Block size:") {
        return Err(NeptisError::InternalError(
            String::from_str("Failed to determine block size of FS"),
        ));
    }
    proof {
        reveal_strlit("Block size:");
    }
    let rest = trim_str(suffix_from(tune2fs_output, 11));
    match parse_usize(rest) {
        Some(v) => Ok(v),
        None => Err(NeptisError::InternalError(
            String::from_str("Failed to determine block size of FS"),
        )),
    }
}

/// The line pattern that marks `(img, mnt)` as mounted in the mount table.
pub open spec fn mount_pattern(img: Seq<char>, mnt: Seq<char>) -> Seq<char> {
    img + " on "@ + mnt + " type ext4"@
}

/// A line of the mount table records `(img, mnt)` as a live ext4 mount.
pub open spec fn mounted_in(table: Seq<char>, img: Seq<char>, mnt: Seq<char>) -> bool {
    exists|i: int|
        0 <= i < lines_of(table).len() && has_substr(
            #[trigger] lines_of(table)[i],
            mount_pattern(img, mnt),
        )
}

/// Inspects captured `mount -l` output for an ext4 entry mounting `img`
/// on `mnt`.
pub fn raw_mnt_check(table: &str, img_path: &str, mnt_path: &str) -> (r: bool)
    ensures
        r == mounted_in(table@, img_path@, mnt_path@),
{
    let pat = concat_str(
        concat_str(concat_str(img_path, " on ").as_str(), mnt_path).as_str(),
        " type ext4",
    );
    let lines = split_lines(table);
    let n = lines.len();
    let mut k: usize = 0;
    while k < n
        invariant
            k <= n,
            n == lines@.len(),
            crate::strutil::str_views(lines@) == lines_of(table@),
            pat@ == mount_pattern(img_path@, mnt_path@),
            forall|i: int| 0 <= i < k ==> !has_substr(lines_of(table@)[i], pat@),
        decreases n - k,
    {
        if contains_sub(lines[k].as_str(), pat.as_str()) {
            proof {
                assert(lines@[k as int]@ == lines_of(table@)[k as int]);
            }
            return true;
        }
        k += 1;
    }
    false
}

} // verus!

//! Workspace naming: a time-stamped directory name for each fetch, and the
//! numbered suffix that keeps it clear of directories that already exist.

use chrono::{Datelike, TimeZone, Timelike};
use vstd::prelude::*;
use vstd::string::{StrSliceExecFns, StringExecFns};
use crate::text::{
    contains_char, int_text, lemma_nat_text_is_digits, lemma_split_join, lemma_split_pieces_without_sep,
    lemma_split_without_sep, nat_text, push_int, push_nat, same_text, split, split_on, views,
};

verus! {

#[verifier::external_type_specification]
#[verifier::external_body]
pub struct ExSystemTime(std::time::SystemTime);

/// The largest numbered suffix tried before giving up on a name.
pub const MAX_SUFFIX_INDEX: i32 = 9999;

/// Why no workspace name could be produced.
#[derive(Debug, Clone, Copy, PartialEq, Eq, Structural)]
pub enum FolderFormatError {
    /// The name has fewer than four `_`-separated pieces.
    FailedToFormat,
    /// Every numbered suffix up to the largest one is taken.
    SuffixesExhausted,
}

impl FolderFormatError {
    /// A human-readable description of the error.
    pub fn message(&self) -> (r: &'static str)
        ensures
            r@ == match self {
                FolderFormatError::FailedToFormat =>
                    "FolderFormatError: Failed to format folder name. Try removing all repeating folders or try again in a minute."@,
                FolderFormatError::SuffixesExhausted =>
                    "FolderFormatError: Every numbered folder name is taken. Try removing all repeating folders or try again in a minute."@,
            },
    {
        match self {
            FolderFormatError::FailedToFormat =>
                "FolderFormatError: Failed to format folder name. Try removing all repeating folders or try again in a minute.",
            FolderFormatError::SuffixesExhausted =>
                "FolderFormatError: Every numbered folder name is taken. Try removing all repeating folders or try again in a minute.",
        }
    }
}

/// The numbered suffix for `index`: a `0` is put in front of any index below
/// ten, so `1` gives `01` and `12` gives `12`.
pub open spec fn index_suffix(index: int) -> Seq<char> {
    if index < 10 {
        seq!['0'] + int_text(index)
    } else {
        int_text(index)
    }
}

/// The name built from the first four pieces of `pieces` and the suffix for
/// `index`: `<day>_<month>_<year>_<time>_<suffix>`.
pub open spec fn candidate(pieces: Seq<Seq<char>>, index: int) -> Seq<char> {
    pieces[0] + seq!['_'] + pieces[1] + seq!['_'] + pieces[2] + seq!['_'] + pieces[3] + seq!['_']
        + index_suffix(index)
}

/// Rebuilds `path` from the first four pieces of `base_path` and appends the
/// numbered suffix for `index` (`01_Jan_2025_1046` and 1 give
/// `01_Jan_2025_1046_01`). Fails, leaving `path` as it was, when there are
/// fewer than four pieces.
pub fn destination_fmt(base_path: &[&str], path: &mut String, index: i32) -> (r: Result<(), FolderFormatError>)
    ensures
        base_path@.len() < 4 ==> r == Err::<(), FolderFormatError>(FolderFormatError::FailedToFormat)
            && final(path)@ == old(path)@,
        base_path@.len() >= 4 ==> r is Ok && final(path)@ == candidate(views(base_path@), index as int),
{
    if base_path.len() < 4 {
        return Err(FolderFormatError::FailedToFormat);
    }
    let mut p = String::from_str(base_path[0]);
    p.append("_");
    p.append(base_path[1]);
    p.append("_");
    p.append(base_path[2]);
    p.append("_");
    p.append(base_path[3]);
    p.append("_");
    if index < 10 {
        p.append("0");
    }
    push_int(&mut p, index as i64);
    proof {
        reveal_strlit("_");
        reveal_strlit("0");
    }
    *path = p;
    let ghost v = views(base_path@);
    assert(v[0] == base_path@[0]@ && v[1] == base_path@[1]@ && v[2] == base_path@[2]@ && v[3] == base_path@[3]@);
    assert(path@ =~= candidate(v, index as int));
    Ok(())
}

/// A suffix never holds `_`.
proof fn lemma_suffix_without_underscore(index: int)
    ensures
        !contains_char(index_suffix(index), '_'),
{
    let n: nat = if index < 0 { (-index) as nat } else { index as nat };
    lemma_nat_text_is_digits(n);
    let s = index_suffix(index);
    if contains_char(s, '_') {
        let j = choose|j: int| 0 <= j < s.len() && s[j] == '_';
        let t = int_text(index);
        if index < 10 {
            assert(s[j] == (seq!['0'] + t)[j]);
        }
        if index < 0 {
            let k = if index < 10 { j - 1 } else { j };
            assert(t[k] == (seq!['-'] + nat_text(n))[k]);
            assert(nat_text(n)[k - 1] == '_');
        } else {
            let k = if index < 10 { j - 1 } else { j };
            assert(nat_text(n)[k] == '_');
        }
    }
}

/// Suffixes do not stack: the name made for any index from a name that
/// already carries a suffix is the one made from the name it was built from,
/// so every retry starts again from the same four pieces.
pub proof fn law_suffix_replaced(path: Seq<char>, k: int, j: int)
    requires
        split(path, '_').len() >= 4,
    ensures
        candidate(split(candidate(split(path, '_'), k), '_'), j) == candidate(split(path, '_'), j),
        split(candidate(split(path, '_'), k), '_').len() == 5,
{
    let p = split(path, '_');
    lemma_split_pieces_without_sep(path, '_');
    assert(!contains_char(p[0], '_') && !contains_char(p[1], '_') && !contains_char(p[2], '_')
        && !contains_char(p[3], '_'));
    lemma_suffix_without_underscore(k);
    let sfx = index_suffix(k);
    let a1 = p[0] + seq!['_'] + p[1];
    let a2 = a1 + seq!['_'] + p[2];
    let a3 = a2 + seq!['_'] + p[3];
    lemma_split_without_sep(p[0], '_');
    lemma_split_join(p[0], p[1], '_');
    lemma_split_join(a1, p[2], '_');
    lemma_split_join(a2, p[3], '_');
    lemma_split_join(a3, sfx, '_');
    assert(candidate(p, k) =~= a3 + seq!['_'] + sfx);
    let q = split(candidate(p, k), '_');
    assert(q =~= seq![p[0], p[1], p[2], p[3], sfx]);
}

/// Relies on std::path::Path::exists: whether something is found at `path`
/// on disk at the time of the call.
#[verifier::external_body]
pub(crate) fn check_existence(path: &str) -> (r: bool) {
    std::path::Path::new(path).exists()
}

/// What follows one look at the disk for a numbered name.
pub enum NameStep {
    /// The name was reported free: use it.
    Free(String),
    /// The name is taken: try this index next.
    Next(i32),
    /// The name is taken and it was the last index to try.
    Exhausted,
}

/// Decides on the answer for the numbered name `candidate`, made for
/// `index`: a name that is not found is used; a taken one moves on to the
/// next index, up to `MAX_SUFFIX_INDEX`.
pub fn after_check(found: bool, candidate: String, index: i32) -> (r: NameStep)
    ensures
        !found ==> r == NameStep::Free(candidate),
        found && index < MAX_SUFFIX_INDEX ==> r == NameStep::Next((index + 1) as i32),
        found && index >= MAX_SUFFIX_INDEX ==> r == NameStep::Exhausted,
{
    if !found {
        NameStep::Free(candidate)
    } else if index < MAX_SUFFIX_INDEX {
        NameStep::Next(index + 1)
    } else {
        NameStep::Exhausted
    }
}

/// Returns `path` if it does not exist. Otherwise builds numbered names from
/// its first four `_`-separated pieces with the suffixes for `index`,
/// `index + 1`, ..., up to `MAX_SUFFIX_INDEX`. Each name is looked up on
/// disk, `path` itself counting as taken, and `after_check` decides on each
/// answer. Fails when the name has fewer than four pieces, or when the
/// suffixes run out.
pub fn update_destination(exists: bool, path: String, index: i32) -> (r: Result<String, FolderFormatError>)
    ensures
        !exists ==> r == Ok::<String, FolderFormatError>(path),
        exists && split(path@, '_').len() < 4 ==> r == Err::<String, FolderFormatError>(
            FolderFormatError::FailedToFormat,
        ),
        exists && split(path@, '_').len() >= 4 && index > MAX_SUFFIX_INDEX ==> r == Err::<
            String,
            FolderFormatError,
        >(FolderFormatError::SuffixesExhausted),
        exists && split(path@, '_').len() >= 4 ==> match r {
            Ok(p) => p@ != path@ && exists|k: int|
                index <= k <= MAX_SUFFIX_INDEX && p@ == #[trigger] candidate(split(path@, '_'), k),
            Err(e) => e == FolderFormatError::SuffixesExhausted,
        },
{
    if !exists {
        return Ok(path);
    }
    let from_split = path.clone();
    let base_path = split_on(from_split.as_str(), '_');
    let ghost pieces = split(path@, '_');
    if base_path.len() < 4 {
        return Err(FolderFormatError::FailedToFormat);
    }
    if index > MAX_SUFFIX_INDEX {
        return Err(FolderFormatError::SuffixesExhausted);
    }
    let mut next = index;
    loop
        invariant
            exists,
            views(base_path@) == pieces,
            pieces == split(path@, '_'),
            pieces.len() >= 4,
            index <= next <= MAX_SUFFIX_INDEX,
        decreases MAX_SUFFIX_INDEX - next,
    {
        let mut current = String::new();
        let formatted = destination_fmt(base_path.as_slice(), &mut current, next);
        assert(formatted is Ok);
        let found = same_text(current.as_str(), path.as_str()) || check_existence(current.as_str());
        match after_check(found, current, next) {
            NameStep::Free(p) => {
                assert(p@ == candidate(pieces, next as int));
                return Ok(p);
            },
            NameStep::Next(n) => {
                next = n;
            },
            NameStep::Exhausted => {
                return Err(FolderFormatError::SuffixesExhausted);
            },
        }
    }
}

/// A local date and time to the minute, as the system clock reports it.
#[derive(Debug, Clone, Copy, PartialEq, Eq, Structural)]
pub struct Stamp {
    pub year: i32,
    pub month: u32,
    pub day: u32,
    pub hour: u32,
    pub minute: u32,
}

impl Stamp {
    /// Month, day, hour and minute lie in their ranges.
    pub open spec fn wf(&self) -> bool {
        &&& 1 <= self.month <= 12
        &&& 1 <= self.day <= 31
        &&& self.hour < 24
        &&& self.minute < 60
    }
}

/// `n` in decimal, zero-padded to two digits.
pub open spec fn pad2(n: nat) -> Seq<char> {
    if n < 10 {
        seq!['0'] + nat_text(n)
    } else {
        nat_text(n)
    }
}

/// `n` in decimal, zero-padded to four digits.
pub open spec fn pad4(n: nat) -> Seq<char> {
    if n < 10 {
        seq!['0', '0', '0'] + nat_text(n)
    } else if n < 100 {
        seq!['0', '0'] + nat_text(n)
    } else if n < 1000 {
        seq!['0'] + nat_text(n)
    } else {
        nat_text(n)
    }
}

/// A year as four digits; a year before 0 or after 9999 carries its sign.
pub open spec fn year_text(y: int) -> Seq<char> {
    if 0 <= y <= 9999 {
        pad4(y as nat)
    } else if y > 9999 {
        seq!['+'] + nat_text(y as nat)
    } else {
        seq!['-'] + pad4((-y) as nat)
    }
}

/// The English three-letter abbreviation of month `m`.
pub open spec fn month_abbr(m: int) -> Seq<char> {
    if m == 1 {
        seq!['J', 'a', 'n']
    } else if m == 2 {
        seq!['F', 'e', 'b']
    } else if m == 3 {
        seq!['M', 'a', 'r']
    } else if m == 4 {
        seq!['A', 'p', 'r']
    } else if m == 5 {
        seq!['M', 'a', 'y']
    } else if m == 6 {
        seq!['J', 'u', 'n']
    } else if m == 7 {
        seq!['J', 'u', 'l']
    } else if m == 8 {
        seq!['A', 'u', 'g']
    } else if m == 9 {
        seq!['S', 'e', 'p']
    } else if m == 10 {
        seq!['O', 'c', 't']
    } else if m == 11 {
        seq!['N', 'o', 'v']
    } else {
        seq!['D', 'e', 'c']
    }
}

/// The directory name for a moment: `<DD>_<Mon>_<YYYY>_<HHMM>`, such as
/// `01_Sep_2024_1307`.
pub open spec fn stamp_text(s: Stamp) -> Seq<char> {
    pad2(s.day as nat) + seq!['_'] + month_abbr(s.month as int) + seq!['_'] + year_text(s.year as int)
        + seq!['_'] + pad2(s.hour as nat) + pad2(s.minute as nat)
}

/// The workspace directory under `root` for a moment.
pub open spec fn workspace_path(root: Seq<char>, s: Stamp) -> Seq<char> {
    root + seq!['/'] + stamp_text(s)
}

fn month_str(m: u32) -> (r: &'static str)
    requires
        1 <= m <= 12,
    ensures
        r@ == month_abbr(m as int),
{
    let r = if m == 1 {
        "Jan"
    } else if m == 2 {
        "Feb"
    } else if m == 3 {
        "Mar"
    } else if m == 4 {
        "Apr"
    } else if m == 5 {
        "May"
    } else if m == 6 {
        "Jun"
    } else if m == 7 {
        "Jul"
    } else if m == 8 {
        "Aug"
    } else if m == 9 {
        "Sep"
    } else if m == 10 {
        "Oct"
    } else if m == 11 {
        "Nov"
    } else {
        "Dec"
    };
    proof {
        reveal_strlit("Jan");
        reveal_strlit("Feb");
        reveal_strlit("Mar");
        reveal_strlit("Apr");
        reveal_strlit("May");
        reveal_strlit("Jun");
        reveal_strlit("Jul");
        reveal_strlit("Aug");
        reveal_strlit("Sep");
        reveal_strlit("Oct");
        reveal_strlit("Nov");
        reveal_strlit("Dec");
    }
    assert(r@ =~= month_abbr(m as int));
    r
}

fn push_pad2(out: &mut String, n: u32)
    ensures
        final(out)@ == old(out)@ + pad2(n as nat),
{
    if n < 10 {
        out.append("0");
    }
    push_nat(out, n as u64);
    proof {
        reveal_strlit("0");
    }
    assert(final(out)@ =~= old(out)@ + pad2(n as nat));
}

fn push_pad4(out: &mut String, n: u64)
    ensures
        final(out)@ == old(out)@ + pad4(n as nat),
{
    if n < 10 {
        out.append("000");
    } else if n < 100 {
        out.append("00");
    } else if n < 1000 {
        out.append("0");
    }
    push_nat(out, n);
    proof {
        reveal_strlit("000");
        reveal_strlit("00");
        reveal_strlit("0");
    }
    assert(final(out)@ =~= old(out)@ + pad4(n as nat));
}

fn push_year(out: &mut String, y: i32)
    ensures
        final(out)@ == old(out)@ + year_text(y as int),
{
    proof {
        reveal_strlit("+");
        reveal_strlit("-");
    }
    if 0 <= y && y <= 9999 {
        push_pad4(out, y as u64);
    } else if y > 9999 {
        out.append("+");
        push_nat(out, y as u64);
    } else {
        out.append("-");
        let m: u64 = (-(y as i64)) as u64;
        push_pad4(out, m);
    }
    assert(final(out)@ =~= old(out)@ + year_text(y as int));
}

/// Renders a moment as a directory name, `<DD>_<Mon>_<YYYY>_<HHMM>`.
pub fn stamp_name(s: &Stamp) -> (r: String)
    requires
        s.wf(),
    ensures
        r@ == stamp_text(*s),
{
    let mut out = String::new();
    push_pad2(&mut out, s.day);
    out.append("_");
    out.append(month_str(s.month));
    out.append("_");
    push_year(&mut out, s.year);
    out.append("_");
    push_pad2(&mut out, s.hour);
    push_pad2(&mut out, s.minute);
    proof {
        reveal_strlit("_");
    }
    assert(out@ =~= stamp_text(*s));
    out
}

/// The workspace directory under `root` for the moment `s`:
/// `<root>/<DD>_<Mon>_<YYYY>_<HHMM>`.
pub fn workspace_dir_at(root: &str, s: &Stamp) -> (r: String)
    requires
        s.wf(),
    ensures
        r@ == workspace_path(root@, *s),
{
    let mut out = String::from_str(root);
    out.append("/");
    let name = stamp_name(s);
    out.append(name.as_str());
    proof {
        reveal_strlit("/");
    }
    assert(out@ =~= workspace_path(root@, *s));
    out
}

/// The last second of the year 9999, counted from the Unix epoch.
pub const MAX_STAMP_SECONDS: u64 = 253402300799;

/// Relies on std's `SystemTime::now`: the system clock's current reading.
#[verifier::external_body]
fn system_now() -> (r: std::time::SystemTime) {
    std::time::SystemTime::now()
}

/// Relies on std's `SystemTime::duration_since(UNIX_EPOCH)`: the whole
/// seconds since the Unix epoch, or nothing for a reading before it (an
/// error, not a panic).
#[verifier::external_body]
fn seconds_since_epoch(t: &std::time::SystemTime) -> (r: Option<u64>) {
    match t.duration_since(std::time::UNIX_EPOCH) {
        Ok(d) => Some(d.as_secs()),
        Err(_) => None,
    }
}

/// Relies on chrono's `Local.timestamp_opt(secs, 0)` and its
/// `Datelike`/`Timelike` getters, which give a month from 1 to 12, a day
/// from 1 to 31, an hour from 0 to 23 and a minute from 0 to 59. Seconds up
/// to the end of the year 9999 stay clear of the range errors on which the
/// local-offset lookup panics.
#[verifier::external_body]
fn local_stamp(secs: u64) -> (r: Option<Stamp>)
    requires
        secs <= MAX_STAMP_SECONDS,
    ensures
        r matches Some(s) ==> s.wf(),
{
    match chrono::Local.timestamp_opt(secs as i64, 0).single() {
        Some(t) => Some(
            Stamp { year: t.year(), month: t.month(), day: t.day(), hour: t.hour(), minute: t.minute() },
        ),
        None => None,
    }
}

/// The workspace directory under `root` for the current local time, or
/// nothing when the clock reads before the Unix epoch or after the year 9999,
/// or the moment has no single local time.
pub fn workspace_dir(root: &str) -> (r: Option<String>)
    ensures
        r matches Some(d) ==> exists|s: Stamp| s.wf() && d@ == #[trigger] workspace_path(root@, s),
{
    let now = system_now();
    let secs = match seconds_since_epoch(&now) {
        Some(secs) => secs,
        None => {
            return None;
        },
    };
    if secs > MAX_STAMP_SECONDS {
        return None;
    }
    match local_stamp(secs) {
        Some(s) => Some(workspace_dir_at(root, &s)),
        None => None,
    }
}

} // verus!

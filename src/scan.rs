//! The matching rules of the scans that find the game's process, its
//! window and its modules. The scans themselves walk operating-system
//! snapshots; each entry they meet is judged here.

use vstd::prelude::*;
use vstd::string::*;

verus! {

// ---------------------------------------------------------------------------
// Process names
// ---------------------------------------------------------------------------

/// The UTF-16 code units of one character.
pub open spec fn utf16_units(c: char) -> Seq<u16> {
    let v = c as u32;
    if v < 0x10000 {
        seq![v as u16]
    } else {
        let w = (v - 0x10000) as u32;
        seq![(0xD800 + w / 0x400) as u16, (0xDC00 + w % 0x400) as u16]
    }
}

/// The UTF-16 encoding of a character sequence.
pub open spec fn utf16_of(s: Seq<char>) -> Seq<u16>
    decreases s.len(),
{
    if s.len() == 0 {
        Seq::empty()
    } else {
        utf16_of(s.drop_last()) + utf16_units(s.last())
    }
}

/// `s` without the NUL characters at its end.
pub open spec fn trim_trailing_nul(s: Seq<char>) -> Seq<char>
    decreases s.len(),
{
    if s.len() > 0 && s.last() == '\0' {
        trim_trailing_nul(s.drop_last())
    } else {
        s
    }
}

/// `s` without the NUL characters at its start.
pub open spec fn trim_leading_nul(s: Seq<char>) -> Seq<char>
    decreases s.len(),
{
    if s.len() > 0 && s[0] == '\0' {
        trim_leading_nul(s.drop_first())
    } else {
        s
    }
}

/// `s` without the NUL characters at either end.
pub open spec fn trim_nul(s: Seq<char>) -> Seq<char> {
    trim_trailing_nul(trim_leading_nul(s))
}

/// The name a process entry is compared with: the UTF-16 encoding of the
/// wanted name without trailing NULs, followed by one NUL.
pub open spec fn wide_target(name: Seq<char>) -> Seq<u16> {
    utf16_of(trim_trailing_nul(name)).push(0)
}

fn encode_char(c: char) -> (r: Vec<u16>)
    ensures
        r@ == utf16_units(c),
{
    let v = c as u32;
    let mut r: Vec<u16> = Vec::new();
    if v < 0x10000 {
        r.push(v as u16);
    } else {
        let w = v - 0x10000;
        r.push((0xD800 + w / 0x400) as u16);
        r.push((0xDC00 + w % 0x400) as u16);
    }
    assert(r@ =~= utf16_units(c));
    r
}

/// Length of `name` once the NULs at its end are dropped.
fn trailing_nul_start(name: &str) -> (r: usize)
    ensures
        r <= name@.len(),
        name@.subrange(0, r as int) == trim_trailing_nul(name@),
{
    let mut e: usize = name.unicode_len();
    assert(name@.subrange(0, e as int) =~= name@);
    while e > 0 && name.get_char(e - 1) == '\0'
        invariant
            e <= name@.len(),
            trim_trailing_nul(name@.subrange(0, e as int)) == trim_trailing_nul(name@),
        decreases e,
    {
        assert(name@.subrange(0, e as int).drop_last() =~= name@.subrange(0, e - 1));
        e = e - 1;
    }
    e
}

/// The wide, NUL-terminated form of a process name that the process scan
/// compares entries with.
pub fn wide_name(name: &str) -> (r: Vec<u16>)
    ensures
        r@ == wide_target(name@),
{
    let e = trailing_nul_start(name);
    let mut out: Vec<u16> = Vec::new();
    let mut i: usize = 0;
    while i < e
        invariant
            e <= name@.len(),
            i <= e,
            out@ == utf16_of(name@.subrange(0, i as int)),
        decreases e - i,
    {
        let units = encode_char(name.get_char(i));
        let ghost before = out@;
        let mut k: usize = 0;
        while k < units.len()
            invariant
                k <= units@.len(),
                out@ == before + units@.subrange(0, k as int),
            decreases units@.len() - k,
        {
            out.push(units[k]);
            k = k + 1;
            assert(out@ =~= before + units@.subrange(0, k as int));
        }
        assert(units@.subrange(0, k as int) =~= units@);
        assert(name@.subrange(0, i + 1).drop_last() =~= name@.subrange(0, i as int));
        i = i + 1;
    }
    out.push(0);
    out
}

/// Whether a process entry's executable name starts with the wanted wide
/// name (which carries its NUL, so the whole name must match).
pub open spec fn exe_matches(exe: Seq<u16>, target: Seq<u16>) -> bool {
    target.len() <= exe.len() && exe.subrange(0, target.len() as int) == target
}

/// Judges one process entry.
pub fn exe_name_matches(exe: &[u16], target: &[u16]) -> (r: bool)
    ensures
        r == exe_matches(exe@, target@),
{
    if target.len() > exe.len() {
        return false;
    }
    let mut i: usize = 0;
    while i < target.len()
        invariant
            target@.len() <= exe@.len(),
            i <= target@.len(),
            forall|j: int| 0 <= j < i ==> exe@[j] == target@[j],
        decreases target@.len() - i,
    {
        if exe[i] != target[i] {
            return false;
        }
        i = i + 1;
    }
    assert(exe@.subrange(0, target@.len() as int) =~= target@);
    true
}

/// The first entry of a process snapshot whose name matches.
pub fn first_matching_process(names: &Vec<Vec<u16>>, target: &[u16]) -> (r: Option<usize>)
    ensures
        match r {
            Some(i) => i < names@.len() && exe_matches(names@[i as int]@, target@) && forall|j: int|
                0 <= j < i ==> !exe_matches(#[trigger] names@[j]@, target@),
            None => forall|j: int|
                0 <= j < names@.len() ==> !exe_matches(#[trigger] names@[j]@, target@),
        },
{
    let mut i: usize = 0;
    while i < names.len()
        invariant
            i <= names@.len(),
            forall|j: int| 0 <= j < i ==> !exe_matches(#[trigger] names@[j]@, target@),
        decreases names@.len() - i,
    {
        if exe_name_matches(names[i].as_slice(), target) {
            return Some(i);
        }
        i = i + 1;
    }
    None
}

// ---------------------------------------------------------------------------
// Windows
// ---------------------------------------------------------------------------

/// What the window scan carries from one window to the next.
pub struct EnumData {
    pub target_pid: u32,
    pub found: bool,
}

impl EnumData {
    /// A scan for a visible window of the process `target_pid`.
    pub fn new(target_pid: u32) -> (r: EnumData)
        ensures
            r.target_pid == target_pid,
            !r.found,
    {
        EnumData { target_pid, found: false }
    }

    /// Judges one top-level window, owned by `window_pid`. Returns whether
    /// the scan should go on: it stops at the first visible window of the
    /// target process.
    pub fn visit(&mut self, window_pid: u32, visible: bool) -> (r: bool)
        ensures
            final(self).target_pid == old(self).target_pid,
            final(self).found == (old(self).found || (window_pid == old(self).target_pid
                && visible)),
            r == !(window_pid == old(self).target_pid && visible),
    {
        if window_pid == self.target_pid && visible {
            self.found = true;
            false
        } else {
            true
        }
    }
}

// ---------------------------------------------------------------------------
// Modules
// ---------------------------------------------------------------------------

/// The lower-case form of a text, as `str::to_lowercase` gives it.
pub uninterp spec fn lower_of(s: Seq<char>) -> Seq<char>;

/// Relies on `str::to_lowercase`: the result depends on the characters of
/// the text alone.
#[verifier::external_body]
fn to_lowercase(s: &str) -> (r: String)
    ensures
        r@ == lower_of(s@),
{
    s.to_lowercase()
}

/// Drops the NUL characters at both ends of a text.
pub fn trim_nul_str(s: &str) -> (r: &str)
    ensures
        r@ == trim_nul(s@),
{
    let n = s.unicode_len();
    let mut b: usize = 0;
    assert(s@.subrange(0, n as int) =~= s@);
    while b < n && s.get_char(b) == '\0'
        invariant
            n == s@.len(),
            b <= n,
            trim_leading_nul(s@.subrange(b as int, n as int)) == trim_leading_nul(s@),
        decreases n - b,
    {
        assert(s@.subrange(b as int, n as int).drop_first() =~= s@.subrange(b + 1, n as int));
        b = b + 1;
    }
    assert(trim_leading_nul(s@.subrange(b as int, n as int)) == s@.subrange(b as int, n as int));
    let mut e: usize = n;
    assert(s@.subrange(b as int, e as int) == trim_leading_nul(s@));
    while e > b && s.get_char(e - 1) == '\0'
        invariant
            b <= e <= n,
            n == s@.len(),
            trim_trailing_nul(s@.subrange(b as int, e as int)) == trim_nul(s@),
        decreases e,
    {
        assert(s@.subrange(b as int, e as int).drop_last() =~= s@.subrange(b as int, e - 1));
        e = e - 1;
    }
    s.substring_char(b, e)
}

/// Whether a loaded module's name is the wanted one, ignoring case and the
/// NULs that pad a snapshot entry.
pub open spec fn module_matches(name: Seq<char>, wanted: Seq<char>) -> bool {
    lower_of(trim_nul(name)) == lower_of(wanted)
}

/// The first of the lower-cased module names that equals the lower-cased
/// wanted name.
pub fn first_equal_name(lowered: &Vec<String>, wanted_lower: &String) -> (r: Option<usize>)
    ensures
        match r {
            Some(i) => i < lowered@.len() && lowered@[i as int]@ == wanted_lower@ && forall|j: int|
                0 <= j < i ==> (#[trigger] lowered@[j])@ != wanted_lower@,
            None => forall|j: int| 0 <= j < lowered@.len() ==> (#[trigger] lowered@[j])@ != wanted_lower@,
        },
{
    let mut i: usize = 0;
    while i < lowered.len()
        invariant
            i <= lowered@.len(),
            forall|j: int| 0 <= j < i ==> (#[trigger] lowered@[j])@ != wanted_lower@,
        decreases lowered@.len() - i,
    {
        if lowered[i] == *wanted_lower {
            return Some(i);
        }
        i = i + 1;
    }
    None
}

/// The first loaded module whose name is the wanted one.
pub fn find_module(names: &Vec<String>, wanted: &str) -> (r: Option<usize>)
    ensures
        match r {
            Some(i) => i < names@.len() && module_matches(names@[i as int]@, wanted@) && forall|
                j: int,
            | 0 <= j < i ==> !module_matches(#[trigger] names@[j]@, wanted@),
            None => forall|j: int|
                0 <= j < names@.len() ==> !module_matches(#[trigger] names@[j]@, wanted@),
        },
{
    let wanted_lower = to_lowercase(wanted);
    let mut lowered: Vec<String> = Vec::new();
    let mut i: usize = 0;
    while i < names.len()
        invariant
            i <= names@.len(),
            lowered@.len() == i,
            forall|j: int| 0 <= j < i ==> (#[trigger] lowered@[j])@ == lower_of(trim_nul(names@[j]@)),
        decreases names@.len() - i,
    {
        lowered.push(to_lowercase(trim_nul_str(names[i].as_str())));
        i = i + 1;
    }
    let r = first_equal_name(&lowered, &wanted_lower);
    proof {
        match r {
            Some(k) => {
                assert forall|j: int| 0 <= j < k implies !module_matches(
                    #[trigger] names@[j]@,
                    wanted@,
                ) by {
                    assert(lowered@[j]@ != wanted_lower@);
                }
                assert(lowered@[k as int]@ == wanted_lower@);
            },
            None => {
                assert forall|j: int| 0 <= j < names@.len() implies !module_matches(
                    #[trigger] names@[j]@,
                    wanted@,
                ) by {
                    assert(lowered@[j]@ != wanted_lower@);
                }
            },
        }
    }
    r
}

} // verus!

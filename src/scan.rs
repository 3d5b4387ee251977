//! Reading the lines that a Bluetooth discovery scan prints, such as
//! `[NEW] Device 54:C2:8B:53:A4:3C Wireless Controller`, to spot a new
//! device whose name says it is a game controller.
use vstd::prelude::*;

verus! {

/// Unicode White_Space, the characters that `char::is_whitespace` accepts.
pub open spec fn is_ws(c: char) -> bool {
    let u = c as u32;
    (0x9 <= u && u <= 0xd) || u == 0x20 || u == 0x85 || u == 0xa0 || u == 0x1680 || (0x2000 <= u
        && u <= 0x200a) || u == 0x2028 || u == 0x2029 || u == 0x202f || u == 0x205f || u == 0x3000
}

pub open spec fn is_ascii_upper(c: char) -> bool {
    'A' <= c && c <= 'Z'
}

/// Index of the first character of `s` at or after `i` that satisfies `p`.
pub open spec fn first_from(s: Seq<char>, i: int, p: spec_fn(char) -> bool) -> Option<int>
    decreases s.len() - i,
{
    if i < 0 || i >= s.len() {
        None
    } else if p(s[i]) {
        Some(i)
    } else {
        first_from(s, i + 1, p)
    }
}

pub open spec fn ws_pred() -> spec_fn(char) -> bool {
    |c: char| is_ws(c)
}

pub open spec fn upper_pred() -> spec_fn(char) -> bool {
    |c: char| is_ascii_upper(c)
}

/// `s` split around its first whitespace character, which belongs to neither
/// part; `None` when it has none.
pub open spec fn split_once_ws(s: Seq<char>) -> Option<(Seq<char>, Seq<char>)> {
    match first_from(s, 0, ws_pred()) {
        Some(i) => Some((s.subrange(0, i), s.subrange(i + 1, s.len() as int))),
        None => None,
    }
}

/// `pat` occurs in `s`.
pub open spec fn seq_contains(s: Seq<char>, pat: Seq<char>) -> bool {
    exists|i: int| 0 <= i && i + pat.len() <= s.len() && #[trigger] s.subrange(i, i + pat.len()) == pat
}

pub open spec fn device_word() -> Seq<char> {
    seq!['D', 'e', 'v', 'i', 'c', 'e']
}

pub open spec fn lower_controller() -> Seq<char> {
    seq![' ', 'c', 'o', 'n', 't', 'r', 'o', 'l', 'l', 'e', 'r']
}

pub open spec fn upper_controller() -> Seq<char> {
    seq![' ', 'C', 'o', 'n', 't', 'r', 'o', 'l', 'l', 'e', 'r']
}

pub open spec fn discovery_started() -> Seq<char> {
    seq!['D', 'i', 's', 'c', 'o', 'v', 'e', 'r', 'y', ' ', 's', 't', 'a', 'r', 't', 'e', 'd']
}

pub open spec fn new_tag() -> Seq<char> {
    seq!['N', 'E', 'W']
}

/// A scan line `<tag> <descriptor> <address> <name>` describes a device
/// (descriptor `Device`) whose name holds the word "controller" (or
/// "Controller") after a space.
pub open spec fn spec_is_device_controller(line: Seq<char>) -> bool {
    match split_once_ws(line) {
        None => false,
        Some((_tag, rest)) => match split_once_ws(rest) {
            None => false,
            Some((descriptor, rest)) => descriptor == device_word() && match split_once_ws(rest) {
                None => false,
                Some((_address, name)) => seq_contains(name, lower_controller()) || seq_contains(
                    name,
                    upper_controller(),
                ),
            },
        },
    }
}

/// A scan line announces a newly found game controller: it is not the
/// "Discovery started" banner, its first upper-case letter starts the tag
/// `NEW`, and it describes a controller.
pub open spec fn spec_handle_bt_scan_output(line: Seq<char>) -> bool {
    !seq_contains(line, discovery_started()) && match first_from(line, 0, upper_pred()) {
        None => false,
        Some(u) => u + 3 <= line.len() && line.subrange(u, u + 3) == new_tag()
            && spec_is_device_controller(line),
    }
}

proof fn lemma_first_from_bounds(s: Seq<char>, i: int, p: spec_fn(char) -> bool)
    ensures
        first_from(s, i, p) matches Some(k) ==> i <= k < s.len() && p(s[k]),
    decreases s.len() - i,
{
    if 0 <= i < s.len() && !p(s[i]) {
        lemma_first_from_bounds(s, i + 1, p);
    }
}

fn chars_of(line: &str) -> (r: Vec<char>)
    ensures
        r@ == line@,
{
    let n = line.unicode_len();
    let mut r: Vec<char> = Vec::new();
    let mut i: usize = 0;
    while i < n
        invariant
            n == line@.len(),
            i <= n,
            r@ == line@.subrange(0, i as int),
        decreases n - i,
    {
        r.push(line.get_char(i));
        i = i + 1;
    }
    assert(r@ =~= line@);
    r
}

fn sub_chars(s: &Vec<char>, from: usize, to: usize) -> (r: Vec<char>)
    requires
        from <= to <= s@.len(),
    ensures
        r@ == s@.subrange(from as int, to as int),
{
    let mut r: Vec<char> = Vec::new();
    let mut i: usize = from;
    while i < to
        invariant
            from <= i <= to <= s@.len(),
            r@ == s@.subrange(from as int, i as int),
        decreases to - i,
    {
        r.push(s[i]);
        i = i + 1;
    }
    r
}

fn char_is_ws(c: char) -> (r: bool)
    ensures
        r == is_ws(c),
{
    let u = c as u32;
    (0x9 <= u && u <= 0xd) || u == 0x20 || u == 0x85 || u == 0xa0 || u == 0x1680 || (0x2000 <= u
        && u <= 0x200a) || u == 0x2028 || u == 0x2029 || u == 0x202f || u == 0x205f || u == 0x3000
}

fn first_ws(s: &Vec<char>) -> (r: Option<usize>)
    ensures
        r matches Some(k) ==> (k < s@.len() && first_from(s@, 0, ws_pred()) == Some(k as int)),
        r is None ==> first_from(s@, 0, ws_pred()) is None,
{
    let mut i: usize = 0;
    while i < s.len()
        invariant
            i <= s@.len(),
            first_from(s@, 0, ws_pred()) == first_from(s@, i as int, ws_pred()),
        decreases s@.len() - i,
    {
        if char_is_ws(s[i]) {
            return Some(i);
        }
        i = i + 1;
    }
    None
}

fn first_upper(s: &Vec<char>) -> (r: Option<usize>)
    ensures
        r matches Some(k) ==> (k < s@.len() && first_from(s@, 0, upper_pred()) == Some(k as int)),
        r is None ==> first_from(s@, 0, upper_pred()) is None,
{
    let mut i: usize = 0;
    while i < s.len()
        invariant
            i <= s@.len(),
            first_from(s@, 0, upper_pred()) == first_from(s@, i as int, upper_pred()),
        decreases s@.len() - i,
    {
        let c = s[i];
        if 'A' <= c && c <= 'Z' {
            return Some(i);
        }
        i = i + 1;
    }
    None
}

fn split_once_whitespace(s: &Vec<char>) -> (r: Option<(Vec<char>, Vec<char>)>)
    ensures
        r matches Some((a, b)) ==> split_once_ws(s@) == Some((a@, b@)),
        r is None ==> split_once_ws(s@) is None,
{
    proof {
        lemma_first_from_bounds(s@, 0, ws_pred());
    }
    match first_ws(s) {
        Some(i) => {
            let n = s.len();
            Some((sub_chars(s, 0, i), sub_chars(s, i + 1, n)))
        },
        None => None,
    }
}

/// `pat` occurs in `s` at index `at`.
fn matches_at(s: &Vec<char>, pat: &Vec<char>, at: usize) -> (r: bool)
    requires
        at + pat@.len() <= s@.len(),
    ensures
        r == (s@.subrange(at as int, at + pat@.len()) == pat@),
{
    let n = s.len();
    let mut k: usize = 0;
    while k < pat.len()
        invariant
            k <= pat@.len(),
            n == s@.len(),
            at + pat@.len() <= n,
            forall|m: int| 0 <= m < k ==> s@[at + m] == pat@[m],
        decreases pat@.len() - k,
    {
        if s[at + k] != pat[k] {
            assert(s@.subrange(at as int, at + pat@.len())[k as int] != pat@[k as int]);
            return false;
        }
        k = k + 1;
    }
    assert(s@.subrange(at as int, at + pat@.len()) =~= pat@);
    true
}

fn contains(s: &Vec<char>, pat: &Vec<char>) -> (r: bool)
    ensures
        r == seq_contains(s@, pat@),
{
    if pat.len() > s.len() {
        return false;
    }
    if pat.len() == 0 {
        assert(s@.subrange(0int, 0int + pat@.len()) =~= pat@);
        return true;
    }
    let n = s.len();
    let last = s.len() - pat.len();
    let mut i: usize = 0;
    while i <= last
        invariant
            last + pat@.len() == s@.len(),
            n == s@.len(),
            pat@.len() > 0,
            i <= last + 1,
            forall|j: int|
                0 <= j < i ==> #[trigger] s@.subrange(j, j + pat@.len()) != pat@,
        decreases last + 1 - i,
    {
        if matches_at(s, pat, i) {
            return true;
        }
        i = i + 1;
    }
    assert forall|j: int| 0 <= j && j + pat@.len() <= s@.len() implies #[trigger] s@.subrange(
        j,
        j + pat@.len(),
    ) != pat@ by {}
    false
}

/// Whether a scan line describes a device whose name says it is a game
/// controller.
pub fn is_device_controller(output_line: &str) -> (r: bool)
    ensures
        r == spec_is_device_controller(output_line@),
{
    let line = chars_of(output_line);
    let (_tag, rest) = match split_once_whitespace(&line) {
        Some(parts) => parts,
        None => return false,
    };
    let (descriptor, rest) = match split_once_whitespace(&rest) {
        Some(parts) => parts,
        None => return false,
    };
    let device: Vec<char> = vec!['D', 'e', 'v', 'i', 'c', 'e'];
    assert(device@ =~= device_word());
    if descriptor.len() != device.len() || !matches_at(&descriptor, &device, 0) {
        proof {
            if descriptor@ == device_word() {
                assert(descriptor@.subrange(0, 6) =~= descriptor@);
            }
        }
        return false;
    }
    assert(descriptor@.subrange(0, 6) =~= descriptor@);
    let (_address, name) = match split_once_whitespace(&rest) {
        Some(parts) => parts,
        None => return false,
    };
    let lower: Vec<char> = vec![' ', 'c', 'o', 'n', 't', 'r', 'o', 'l', 'l', 'e', 'r'];
    let upper: Vec<char> = vec![' ', 'C', 'o', 'n', 't', 'r', 'o', 'l', 'l', 'e', 'r'];
    assert(lower@ =~= lower_controller());
    assert(upper@ =~= upper_controller());
    contains(&name, &lower) || contains(&name, &upper)
}

/// Whether a scan line announces a newly found game controller.
pub fn handle_bt_scan_output(bt_scan_output_line: &str) -> (r: bool)
    ensures
        r == spec_handle_bt_scan_output(bt_scan_output_line@),
{
    let line = chars_of(bt_scan_output_line);
    let banner: Vec<char> = vec![
        'D', 'i', 's', 'c', 'o', 'v', 'e', 'r', 'y', ' ', 's', 't', 'a', 'r', 't', 'e', 'd',
    ];
    assert(banner@ =~= discovery_started());
    if contains(&line, &banner) {
        return false;
    }
    proof {
        lemma_first_from_bounds(line@, 0, upper_pred());
    }
    let first = match first_upper(&line) {
        Some(u) => u,
        None => return false,
    };
    if line.len() - first < 3 {
        return false;
    }
    let tag: Vec<char> = vec!['N', 'E', 'W'];
    assert(tag@ =~= new_tag());
    if !matches_at(&line, &tag, first) {
        return false;
    }
    is_device_controller(bt_scan_output_line)
}

} // verus!

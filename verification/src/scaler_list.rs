//! Run-level scalers: named per-channel hit counts.
//!
//! A scaler is configured as a file-name prefix and a display name; a file
//! whose leaf name starts with the prefix contributes its total record count
//! to that scaler. The report is a fixed header line followed by one
//! `<name> <count>` line per configured scaler.

use vstd::prelude::*;
use vstd::string::StrSliceExecFns;
use vstd::string::StringExecFns;

verus! {

/// One configured scaler entry: a file-name prefix and the name it reports
/// under.
#[derive(Clone, Debug, PartialEq)]
pub struct ScalerEntryUI {
    pub file_pattern: String,
    pub scaler_name: String,
}

/// A scaler with its accumulated count.
#[derive(Clone, Debug)]
struct Scaler {
    file_pattern: String,
    name: String,
    value: u64,
}

/// The run's scalers, in configuration order.
#[derive(Clone, Debug)]
pub struct ScalerList {
    list: Vec<Scaler>,
}

impl View for ScalerList {
    /// (pattern, name, value) per scaler.
    type V = Seq<(Seq<char>, Seq<char>, u64)>;

    closed spec fn view(&self) -> Seq<(Seq<char>, Seq<char>, u64)> {
        self.list@.map_values(|s: Scaler| (s.file_pattern@, s.name@, s.value))
    }
}

/// `p` is a prefix of `s`.
pub open spec fn spec_is_prefix(p: Seq<char>, s: Seq<char>) -> bool {
    p.len() <= s.len() && p == s.subrange(0, p.len() as int)
}

/// Index of the first scaler whose pattern prefixes `file`, or -1.
pub open spec fn spec_first_match(l: Seq<(Seq<char>, Seq<char>, u64)>, file: Seq<char>) -> int
    decreases l.len(),
{
    if l.len() == 0 {
        -1
    } else if spec_is_prefix(l[0].0, file) {
        0
    } else {
        let r = spec_first_match(l.skip(1), file);
        if r == -1 {
            -1
        } else {
            1 + r
        }
    }
}

fn is_prefix(p: &str, s: &str) -> (r: bool)
    ensures
        r == spec_is_prefix(p@, s@),
{
    let pl = p.unicode_len();
    let sl = s.unicode_len();
    if pl > sl {
        return false;
    }
    let mut i: usize = 0;
    while i < pl
        invariant
            0 <= i <= pl,
            pl == p@.len(),
            sl == s@.len(),
            pl <= sl,
            forall|j: int| 0 <= j < i ==> p@[j] == s@[j],
        decreases pl - i,
    {
        if p.get_char(i) != s.get_char(i) {
            proof {
                assert(s@.subrange(0, p@.len() as int)[i as int] == s@[i as int]);
            }
            return false;
        }
        i = i + 1;
    }
    proof {
        assert(p@ =~= s@.subrange(0, p@.len() as int));
    }
    true
}


/// Scanning past `i` unmatched scalers shifts the first-match index.
proof fn lemma_first_match_skip(l: Seq<(Seq<char>, Seq<char>, u64)>, file: Seq<char>, i: int)
    requires
        0 <= i <= l.len(),
        forall|j: int| 0 <= j < i ==> !spec_is_prefix((#[trigger] l[j]).0, file),
    ensures
        spec_first_match(l, file) == (if spec_first_match(l.skip(i), file) == -1 {
            -1int
        } else {
            i + spec_first_match(l.skip(i), file)
        }),
    decreases i,
{
    if i == 0 {
        assert(l.skip(0) =~= l);
        lemma_first_match_nonneg(l, file);
    } else {
        assert(!spec_is_prefix(l[0].0, file));
        assert forall|j: int| 0 <= j < i - 1 implies !spec_is_prefix(
            (#[trigger] l.skip(1)[j]).0,
            file,
        ) by {
            assert(l.skip(1)[j] == l[j + 1]);
        }
        lemma_first_match_skip(l.skip(1), file, i - 1);
        assert(l.skip(1).skip(i - 1) =~= l.skip(i));
        lemma_first_match_nonneg(l.skip(i), file);
        lemma_first_match_nonneg(l.skip(1), file);
    }
}

/// A first-match index is -1 or a valid position whose pattern matches.
proof fn lemma_first_match_nonneg(l: Seq<(Seq<char>, Seq<char>, u64)>, file: Seq<char>)
    ensures
        spec_first_match(l, file) == -1 || (0 <= spec_first_match(l, file) < l.len()
            && spec_is_prefix(l[spec_first_match(l, file)].0, file)),
    decreases l.len(),
{
    if l.len() > 0 && !spec_is_prefix(l[0].0, file) {
        lemma_first_match_nonneg(l.skip(1), file);
    }
}

impl ScalerList {
    /// Builds the scaler list from configuration, every count starting at
    /// zero.
    pub fn new(entries: Vec<ScalerEntryUI>) -> (r: ScalerList)
        ensures
            r@.len() == entries@.len(),
            forall|i: int|
                0 <= i < entries@.len() ==> r@[i] == ((#[trigger] entries@[i]).file_pattern@,
                entries@[i].scaler_name@, 0u64),
    {
        let mut list: Vec<Scaler> = Vec::new();
        let mut i: usize = 0;
        while i < entries.len()
            invariant
                0 <= i <= entries@.len(),
                list@.len() == i,
                forall|j: int|
                    0 <= j < i ==> list@.map_values(|s: Scaler| (s.file_pattern@, s.name@, s.value))[j]
                        == ((#[trigger] entries@[j]).file_pattern@, entries@[j].scaler_name@, 0u64),
            decreases entries@.len() - i,
        {
            let e = &entries[i];
            list.push(
                Scaler {
                    file_pattern: e.file_pattern.clone(),
                    name: e.scaler_name.clone(),
                    value: 0,
                },
            );
            i = i + 1;
        }
        ScalerList { list }
    }

    /// Credits a file's record count to the first scaler whose pattern
    /// prefixes the file's leaf name; answers whether any matched.
    pub fn read_scaler(&mut self, file_name: &str, count: u64) -> (r: bool)
        ensures
            r == (spec_first_match(old(self)@, file_name@) != -1),
            spec_first_match(old(self)@, file_name@) == -1 ==> final(self)@ == old(self)@,
            spec_first_match(old(self)@, file_name@) != -1 ==> final(self)@ == old(self)@.update(
                spec_first_match(old(self)@, file_name@),
                (
                    old(self)@[spec_first_match(old(self)@, file_name@)].0,
                    old(self)@[spec_first_match(old(self)@, file_name@)].1,
                    count,
                ),
            ),
    {
        let mut i: usize = 0;
        while i < self.list.len()
            invariant
                self@ == old(self)@,
                0 <= i <= self.list@.len(),
                old(self)@.len() == self.list@.len(),
                forall|j: int|
                    0 <= j < i ==> !spec_is_prefix((#[trigger] old(self)@[j]).0, file_name@),
            decreases self.list@.len() - i,
        {
            proof {
                assert(old(self)@[i as int] == (self.list@[i as int].file_pattern@,
                self.list@[i as int].name@, self.list@[i as int].value));
            }
            let matched = is_prefix(self.list[i].file_pattern.as_str(), file_name);
            if matched {
                proof {
                    lemma_first_match_skip(old(self)@, file_name@, i as int);
                    assert(old(self)@.skip(i as int)[0] == old(self)@[i as int]);
                    assert(spec_first_match(old(self)@.skip(i as int), file_name@) == 0);
                    assert(spec_first_match(old(self)@, file_name@) == i);
                }
                let name = self.list[i].name.clone();
                let pattern = self.list[i].file_pattern.clone();
                self.list.set(i, Scaler { file_pattern: pattern, name, value: count });
                proof {
                    assert(self@ =~~= old(self)@.update(
                        i as int,
                        (old(self)@[i as int].0, old(self)@[i as int].1, count),
                    ));
                }
                return true;
            }
            i = i + 1;
        }
        proof {
            lemma_first_match_skip(old(self)@, file_name@, i as int);
            assert(old(self)@.skip(i as int).len() == 0);
        }
        false
    }

    /// The scaler report: the fixed header line, then `<name> <count>` per
    /// scaler, in configuration order.
    pub fn report(&self) -> (r: String)
        ensures
            r@ == spec_report(self@),
    {
        let mut out: String = "SPS Scaler Data\n".to_owned();
        let mut i: usize = 0;
        proof {
            assert(self@.skip(0) =~= self@);
        }
        while i < self.list.len()
            invariant
                0 <= i <= self.list@.len(),
                self@.len() == self.list@.len(),
                spec_report(self@) == out@ + spec_scaler_lines(self@.skip(i as int)),
            decreases self.list@.len() - i,
        {
            let ghost rest = self@.skip(i as int);
            let ghost before = out@;
            proof {
                assert(rest[0] == self@[i as int]);
                assert(rest.skip(1) =~= self@.skip(i + 1));
            }
            out.append(self.list[i].name.as_str());
            out.append(" ");
            push_dec(&mut out, self.list[i].value);
            out.append("\n");
            proof {
                reveal_strlit(" ");
                reveal_strlit("\n");
                assert(" "@ =~= seq![' ']);
                assert("\n"@ =~= seq!['\n']);
                assert(self@[i as int].1 == self.list@[i as int].name@);
                assert(self@[i as int].2 == self.list@[i as int].value);
                assert(out@ =~= before + (self@[i as int].1 + seq![' '] + spec_dec_chars(
                    self@[i as int].2,
                ) + seq!['\n']));
                assert(before + (self@[i as int].1 + seq![' '] + spec_dec_chars(self@[i as int].2)
                    + seq!['\n']) + spec_scaler_lines(rest.skip(1)) =~= before + spec_scaler_lines(
                    rest,
                ));
            }
            i = i + 1;
        }
        proof {
            assert(self@.skip(i as int).len() == 0);
            assert(out@ + Seq::<char>::empty() =~= out@);
        }
        out
    }
}

/// The decimal digits of `n`, most significant first.
pub open spec fn spec_dec_chars(n: u64) -> Seq<char>
    decreases n,
{
    if n < 10 {
        seq![spec_digit(n as int)]
    } else {
        spec_dec_chars(n / 10).push(spec_digit((n % 10) as int))
    }
}

/// The character for one decimal digit.
pub open spec fn spec_digit(d: int) -> char {
    (('0' as u8) + d) as char
}

/// One report line per scaler: `<name> <count>\n`.
pub open spec fn spec_scaler_lines(l: Seq<(Seq<char>, Seq<char>, u64)>) -> Seq<char>
    decreases l.len(),
{
    if l.len() == 0 {
        Seq::empty()
    } else {
        l[0].1 + seq![' '] + spec_dec_chars(l[0].2) + seq!['\n'] + spec_scaler_lines(l.skip(1))
    }
}

/// The whole report.
pub open spec fn spec_report(l: Seq<(Seq<char>, Seq<char>, u64)>) -> Seq<char> {
    "SPS Scaler Data\n"@ + spec_scaler_lines(l)
}

fn digit_str(d: u64) -> (r: &'static str)
    requires
        d < 10,
    ensures
        r@ == seq![spec_digit(d as int)],
{
    proof {
        reveal_strlit("0");
        reveal_strlit("1");
        reveal_strlit("2");
        reveal_strlit("3");
        reveal_strlit("4");
        reveal_strlit("5");
        reveal_strlit("6");
        reveal_strlit("7");
        reveal_strlit("8");
        reveal_strlit("9");
    }
    match d {
        0 => "0",
        1 => "1",
        2 => "2",
        3 => "3",
        4 => "4",
        5 => "5",
        6 => "6",
        7 => "7",
        8 => "8",
        _ => "9",
    }
}

/// Appends the decimal rendering of `n`.
fn push_dec(out: &mut String, n: u64)
    ensures
        final(out)@ == old(out)@ + spec_dec_chars(n),
    decreases n,
{
    if n < 10 {
        out.append(digit_str(n));
    } else {
        push_dec(out, n / 10);
        out.append(digit_str(n % 10));
        proof {
            assert(old(out)@ + spec_dec_chars(n / 10) + seq![spec_digit((n % 10) as int)]
                =~= old(out)@ + spec_dec_chars(n));
        }
    }
}

} // verus!

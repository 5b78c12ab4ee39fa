//! The voice catalog's persisted form: one line per voice, the short name
//! and the locale separated by a single space. The shell fetches the
//! catalog from the external service and reads or writes the file; the text
//! itself is composed and taken apart here.

use vstd::prelude::*;

verus! {

/// The line persisting one catalog entry.
pub open spec fn spec_voice_line(name: Seq<char>, locale: Seq<char>) -> Seq<char> {
    name + " "@ + locale + "\n"@
}

pub fn voice_line(name: &str, locale: &str) -> (r: String)
    ensures
        r@ == spec_voice_line(name@, locale@),
{
    let mut line = String::from_str(name);
    line.append(" ");
    line.append(locale);
    line.append("\n");
    line
}

/// The whole file: the entries' lines in order.
pub open spec fn spec_voices_file(voices: Seq<(Seq<char>, Seq<char>)>) -> Seq<char>
    decreases voices.len(),
{
    if voices.len() == 0 {
        Seq::<char>::empty()
    } else {
        spec_voices_file(voices.drop_last()) + spec_voice_line(
            voices.last().0,
            voices.last().1,
        )
    }
}

/// Composes the persisted form of the whole catalog, each entry as its
/// `(short name, locale)` pair.
pub fn voices_file_text(voices: &Vec<(String, String)>) -> (r: String)
    ensures
        r@ == spec_voices_file(voices@.map_values(|v: (String, String)| (v.0@, v.1@))),
{
    let ghost entries = voices@.map_values(|v: (String, String)| (v.0@, v.1@));
    let mut text = String::new();
    let mut i: usize = 0;
    while i < voices.len()
        invariant
            i <= voices.len(),
            entries == voices@.map_values(|v: (String, String)| (v.0@, v.1@)),
            text@ == spec_voices_file(entries.take(i as int)),
        decreases voices.len() - i,
    {
        let line = voice_line(voices[i].0.as_str(), voices[i].1.as_str());
        text.append(line.as_str());
        proof {
            assert(entries.take(i + 1 as int).drop_last() =~= entries.take(i as int));
            assert(entries.take(i + 1 as int).last() == entries[i as int]);
        }
        i += 1;
    }
    proof {
        assert(entries.take(voices@.len() as int) =~= entries);
    }
    text
}

/// `i` is the position of the first space of `s`.
pub open spec fn is_first_space(s: Seq<char>, i: int) -> bool {
    0 <= i < s.len() && s[i] == ' ' && (forall|j: int| 0 <= j < i ==> s[j] != ' ')
}

/// A sequence has at most one first space.
pub proof fn lemma_first_space_unique(s: Seq<char>, i1: int, i2: int)
    requires
        is_first_space(s, i1),
        is_first_space(s, i2),
    ensures
        i1 == i2,
{
    if i1 < i2 {
        assert(s[i1] != ' ');
    }
    if i2 < i1 {
        assert(s[i2] != ' ');
    }
}

/// Takes one catalog line apart, as read back without its newline: the
/// name before the first space, the locale after it. A line not of that
/// shape — no space at all, nothing before it or nothing after it — is
/// reported as malformed rather than read wrongly.
pub fn parse_voice_line(line: &str) -> (r: Option<(String, String)>)
    ensures
        r is Some <==> exists|i: int|
            is_first_space(line@, i) && 0 < i && i + 1 < line@.len(),
        r matches Some(parts) ==> exists|i: int|
            is_first_space(line@, i) && parts.0@ == line@.subrange(0, i) && parts.1@
                == line@.subrange(i + 1, line@.len() as int),
{
    let n = line.unicode_len();
    let mut i: usize = 0;
    while i < n
        invariant
            i <= n,
            n == line@.len(),
            forall|j: int| 0 <= j < i ==> line@[j] != ' ',
        decreases n - i,
    {
        if line.get_char(i) == ' ' {
            assert(is_first_space(line@, i as int));
            if i == 0 || i + 1 == n {
                proof {
                    assert forall|k: int|
                        !(is_first_space(line@, k) && 0 < k && k + 1 < line@.len()) by {
                        if is_first_space(line@, k) {
                            lemma_first_space_unique(line@, k, i as int);
                        }
                    }
                }
                return None;
            }
            let name = String::from_str(line.substring_char(0, i));
            let locale = String::from_str(line.substring_char(i + 1, n));
            return Some((name, locale));
        }
        i += 1;
    }
    assert forall|k: int| !is_first_space(line@, k) by {
        if 0 <= k < line@.len() {
            assert(line@[k] != ' ');
        }
    }
    None
}

/// Writing a catalog entry and reading its line back yields the entry: for
/// a non-empty name without spaces and a non-empty locale, the line's first
/// space sits right after the name, with exactly the name before it and
/// exactly the locale after it.
pub proof fn lemma_voice_line_round_trip(name: Seq<char>, locale: Seq<char>)
    requires
        name.len() > 0,
        locale.len() > 0,
        forall|j: int| 0 <= j < name.len() ==> name[j] != ' ',
    ensures
        is_first_space(name + " "@ + locale, name.len() as int),
        (name + " "@ + locale).subrange(0, name.len() as int) == name,
        (name + " "@ + locale).subrange(name.len() as int + 1, (name + " "@ + locale).len() as int)
            == locale,
{
    reveal_strlit(" ");
    let line = name + " "@ + locale;
    assert(line[name.len() as int] == ' ');
    assert(line.subrange(0, name.len() as int) =~= name);
    assert(line.subrange(name.len() as int + 1, line.len() as int) =~= locale);
}

} // verus!

use vstd::prelude::*;

use crate::error::Error;
use crate::strutil::{
    dec_val, find_char, idx_of, is_dec_str, lemma_idx_of, parse_u64, str_eq, trim, trim_view,
};

verus! {

/// One `key = value` assignment under a `[section]` heading.
pub struct IniEntry {
    pub section: String,
    pub key: String,
    pub value: String,
}

/// A parsed INI document: the section headings in order of appearance and
/// the assignments in order of appearance, each tagged with its section.
pub struct IniLoader {
    pub sections: Vec<String>,
    pub entries: Vec<IniEntry>,
}

/// The view of one entry: (section, key, value).
pub type EntryView = (Seq<char>, Seq<char>, Seq<char>);

/// A trimmed line that is a section heading yields the heading's name.
pub open spec fn line_section(t: Seq<char>) -> Option<Seq<char>> {
    if t.len() >= 2 && t[0] == '[' && t.last() == ']' {
        Some(trim_view(t.subrange(1, t.len() - 1)))
    } else {
        None
    }
}

/// A trimmed line that is an assignment yields its key and value. Blank
/// lines, comments (`#` or `;`), headings and lines without `=` yield none,
/// as does an assignment with an empty key.
pub open spec fn line_entry(t: Seq<char>) -> Option<(Seq<char>, Seq<char>)> {
    if t.len() > 0 && t[0] != '[' && t[0] != '#' && t[0] != ';' {
        let e = idx_of(t, '=');
        if e < t.len() {
            let k = trim_view(t.subrange(0, e));
            if k.len() > 0 {
                Some((k, trim_view(t.subrange(e + 1, t.len() as int))))
            } else {
                None
            }
        } else {
            None
        }
    } else {
        None
    }
}

/// Parses INI text line by line, carrying the current section name:
/// the section headings seen and the assignments seen, in order.
pub open spec fn ini_parse(s: Seq<char>, cur: Seq<char>) -> (Seq<Seq<char>>, Seq<EntryView>)
    decreases s.len(),
    via ini_parse_decreases
{
    let i = idx_of(s, '\n');
    let t = trim_view(s.subrange(0, i));
    let cur2 = match line_section(t) {
        Some(n) => n,
        None => cur,
    };
    let secs_here: Seq<Seq<char>> = match line_section(t) {
        Some(n) => seq![n],
        None => seq![],
    };
    let ents_here: Seq<EntryView> = match line_entry(t) {
        Some(kv) => seq![(cur2, kv.0, kv.1)],
        None => seq![],
    };
    if i == s.len() {
        (secs_here, ents_here)
    } else {
        let rest = ini_parse(s.subrange(i + 1, s.len() as int), cur2);
        (secs_here + rest.0, ents_here + rest.1)
    }
}

#[via_fn]
proof fn ini_parse_decreases(s: Seq<char>, cur: Seq<char>) {
    lemma_idx_of(s, '\n');
}

/// The value of the last assignment to `key` under `section`, if any.
pub open spec fn lookup(e: Seq<EntryView>, section: Seq<char>, key: Seq<char>) -> Option<
    Seq<char>,
>
    decreases e.len(),
{
    if e.len() == 0 {
        None
    } else if e.last().0 == section && e.last().1 == key {
        Some(e.last().2)
    } else {
        lookup(e.drop_last(), section, key)
    }
}

/// The value of `key` under `section`, or the empty string when absent.
pub open spec fn opt_str(e: Seq<EntryView>, section: Seq<char>, key: Seq<char>) -> Seq<char> {
    match lookup(e, section, key) {
        Some(v) => v,
        None => Seq::empty(),
    }
}

/// The value of `key` under `section`, or `d` when absent.
pub open spec fn dft_str(e: Seq<EntryView>, section: Seq<char>, key: Seq<char>, d: Seq<char>) -> Seq<char> {
    match lookup(e, section, key) {
        Some(v) => v,
        None => d,
    }
}

/// A value that is present parses as a decimal number fitting `u64`
/// (an absent value raises no objection).
pub open spec fn u64_ok(e: Seq<EntryView>, section: Seq<char>, key: Seq<char>) -> bool {
    match lookup(e, section, key) {
        Some(v) => is_dec_str(v) && dec_val(v) <= u64::MAX,
        None => true,
    }
}

/// The numeric value of `key` under `section`, or `d` when absent.
pub open spec fn u64_val(e: Seq<EntryView>, section: Seq<char>, key: Seq<char>, d: u64) -> nat {
    match lookup(e, section, key) {
        Some(v) => dec_val(v),
        None => d as nat,
    }
}

/// A value that is present is the word `true` or `false`.
pub open spec fn bool_ok(e: Seq<EntryView>, section: Seq<char>, key: Seq<char>) -> bool {
    match lookup(e, section, key) {
        Some(v) => v == "true"@ || v == "false"@,
        None => true,
    }
}

/// The boolean value of `key` under `section`, or `d` when absent.
pub open spec fn bool_val(e: Seq<EntryView>, section: Seq<char>, key: Seq<char>, d: bool) -> bool {
    match lookup(e, section, key) {
        Some(v) => v == "true"@,
        None => d,
    }
}

impl IniEntry {
    /// The entry as (section, key, value) character sequences.
    pub open spec fn view_triple(&self) -> EntryView {
        (self.section@, self.key@, self.value@)
    }
}

impl IniLoader {
    /// The section headings as character sequences.
    pub open spec fn sections_view(&self) -> Seq<Seq<char>> {
        self.sections@.map_values(|x: String| x@)
    }

    /// The assignments as (section, key, value) character sequences.
    pub open spec fn entries_view(&self) -> Seq<EntryView> {
        self.entries@.map_values(|x: IniEntry| x.view_triple())
    }

    /// Parses INI text: `[name]` headings open sections; `key = value`
    /// lines assign under the current section; blank lines, comments and
    /// malformed lines are ignored. Keys and values are trimmed.
    pub fn load(text: &str) -> (r: IniLoader)
        ensures
            (r.sections_view(), r.entries_view()) == ini_parse(text@, Seq::<char>::empty()),
    {
        let len = text.unicode_len();
        let mut pos: usize = 0;
        let mut cur: String = String::new();
        let mut sections: Vec<String> = Vec::new();
        let mut entries: Vec<IniEntry> = Vec::new();
        let ghost whole = ini_parse(text@, Seq::<char>::empty());
        proof {
            assert(text@.subrange(0, len as int) =~= text@);
            assert(sections@.map_values(|x: String| x@) + whole.0 =~= whole.0);
            assert(entries@.map_values(|x: IniEntry| x.view_triple()) + whole.1 =~= whole.1);
        }
        loop
            invariant_except_break
                pos <= len,
                len == text@.len(),
                whole == ini_parse(text@, Seq::<char>::empty()),
                ({
                    let rest = ini_parse(text@.subrange(pos as int, len as int), cur@);
                    whole.0 == sections@.map_values(|x: String| x@) + rest.0 && whole.1
                        == entries@.map_values(|x: IniEntry| x.view_triple()) + rest.1
                }),
            ensures
                whole.0 == sections@.map_values(|x: String| x@),
                whole.1 == entries@.map_values(|x: IniEntry| x.view_triple()),
            decreases len - pos,
        {
            let ghost rem = text@.subrange(pos as int, len as int);
            let nl = find_char(text, '\n', pos);
            let end: usize = match nl {
                Some(i) => i,
                None => len,
            };
            proof {
                lemma_idx_of(rem, '\n');
                // The first newline at or after `pos` in the text is the
                // first newline of the remaining suffix.
                assert forall|k: int| 0 <= k < rem.len() implies rem[k] == text@[pos + k] by {}
                match nl {
                    Some(i) => {
                        if idx_of(rem, '\n') < end - pos {
                            assert(text@[pos + idx_of(rem, '\n')] == '\n');
                        }
                        if idx_of(rem, '\n') > end - pos {
                            assert(rem[end - pos] == '\n');
                        }
                        assert(idx_of(rem, '\n') == end - pos);
                    },
                    None => {
                        if idx_of(rem, '\n') < rem.len() {
                            assert(text@[pos + idx_of(rem, '\n')] == '\n');
                        }
                        assert(idx_of(rem, '\n') == end - pos);
                    },
                }
            }
            let line = text.substring_char(pos, end);
            proof {
                assert(line@ =~= rem.subrange(0, end - pos));
            }
            let t = trim(line);
            let tlen = t.unicode_len();
            let ghost old_sections = sections@;
            let ghost old_entries = entries@;
            let ghost old_cur = cur@;
            if tlen == 0 {
                // blank line
            } else {
                let c0 = t.get_char(0);
                if c0 == '#' || c0 == ';' {
                    // comment
                } else if c0 == '[' {
                    if tlen >= 2 && t.get_char(tlen - 1) == ']' {
                        let inner = t.substring_char(1, tlen - 1);
                        let name = trim(inner);
                        proof {
                            assert(inner@ =~= t@.subrange(1, t@.len() - 1));
                        }
                        sections.push(name.to_owned());
                        cur = name.to_owned();
                    }
                    // a heading without a closing bracket is ignored
                } else {
                    let eq = find_char(t, '=', 0);
                    proof {
                        lemma_idx_of(t@, '=');
                        match eq {
                            Some(i) => {
                                assert(idx_of(t@, '=') == i);
                            },
                            None => {
                                assert(idx_of(t@, '=') == t@.len());
                            },
                        }
                    }
                    match eq {
                        Some(e) => {
                            let kpart = t.substring_char(0, e);
                            let k = trim(kpart);
                            proof {
                                assert(kpart@ =~= t@.subrange(0, e as int));
                            }
                            if k.unicode_len() > 0 {
                                let vpart = t.substring_char(e + 1, tlen);
                                let v = trim(vpart);
                                proof {
                                    assert(vpart@ =~= t@.subrange(e + 1, t@.len() as int));
                                }
                                entries.push(
                                    IniEntry {
                                        section: cur.clone(),
                                        key: k.to_owned(),
                                        value: v.to_owned(),
                                    },
                                );
                            }
                        },
                        None => {},
                    }
                }
            }
            proof {
                let i = idx_of(rem, '\n');
                let tl = trim_view(rem.subrange(0, i));
                assert(tl == t@);
                let cur2: Seq<char> = match line_section(tl) {
                    Some(n) => n,
                    None => old_cur,
                };
                assert(cur@ == cur2);
                let secs_here: Seq<Seq<char>> = match line_section(tl) {
                    Some(n) => seq![n],
                    None => seq![],
                };
                let ents_here: Seq<EntryView> = match line_entry(tl) {
                    Some(kv) => seq![(cur2, kv.0, kv.1)],
                    None => seq![],
                };
                assert(sections@.map_values(|x: String| x@) =~= old_sections.map_values(
                    |x: String| x@,
                ) + secs_here);
                assert(entries@.map_values(|x: IniEntry| x.view_triple()) =~= old_entries
                    .map_values(|x: IniEntry| x.view_triple()) + ents_here);
                if i == rem.len() {
                    assert(ini_parse(rem, old_cur) == (secs_here, ents_here));
                    assert(whole.0 =~= sections@.map_values(|x: String| x@));
                    assert(whole.1 =~= entries@.map_values(|x: IniEntry| x.view_triple()));
                } else {
                    let rem2 = rem.subrange(i + 1, rem.len() as int);
                    assert(rem2 =~= text@.subrange(pos + i + 1, len as int));
                    let rest = ini_parse(rem2, cur2);
                    assert(ini_parse(rem, old_cur) == (secs_here + rest.0, ents_here + rest.1));
                    assert(whole.0 =~= sections@.map_values(|x: String| x@) + rest.0);
                    assert(whole.1 =~= entries@.map_values(|x: IniEntry| x.view_triple())
                        + rest.1);
                }
            }
            match nl {
                Some(i) => {
                    pos = i + 1;
                },
                None => {
                    proof {
                        assert(idx_of(rem, '\n') == rem.len());
                    }
                    break;
                },
            }
        }
        let r = IniLoader { sections, entries };
        proof {
            assert((r.sections_view(), r.entries_view()) == whole);
        }
        r
    }

    /// The last value assigned to `key` under `section`, if any.
    pub fn get<'a>(&'a self, section: &str, key: &str) -> (r: Option<&'a String>)
        ensures
            match r {
                Some(v) => lookup(self.entries_view(), section@, key@) == Some(v@),
                None => lookup(self.entries_view(), section@, key@) is None,
            },
    {
        let ghost ev = self.entries_view();
        let mut j: usize = self.entries.len();
        proof {
            assert(ev.subrange(0, j as int) =~= ev);
        }
        while j > 0
            invariant
                j <= self.entries.len(),
                ev == self.entries_view(),
                lookup(ev, section@, key@) == lookup(ev.subrange(0, j as int), section@, key@),
            decreases j,
        {
            j = j - 1;
            let entry = &self.entries[j];
            proof {
                assert(ev.subrange(0, j + 1).last() == ev[j as int]);
                assert(ev.subrange(0, j + 1).drop_last() =~= ev.subrange(0, j as int));
            }
            if str_eq(entry.section.as_str(), section) && str_eq(entry.key.as_str(), key) {
                return Some(&entry.value);
            }
        }
        proof {
            assert(ev.subrange(0, 0) =~= Seq::<EntryView>::empty());
        }
        None
    }

    /// Whether a `[section]` heading with this name appeared.
    pub fn has_section(&self, name: &str) -> (r: bool)
        ensures
            r == self.sections_view().contains(name@),
    {
        let mut i: usize = 0;
        while i < self.sections.len()
            invariant
                i <= self.sections.len(),
                forall|k: int| 0 <= k < i ==> self.sections_view()[k] != name@,
            decreases self.sections.len() - i,
        {
            if str_eq(self.sections[i].as_str(), name) {
                proof {
                    assert(self.sections_view()[i as int] == name@);
                }
                return true;
            }
            i = i + 1;
        }
        proof {
            if self.sections_view().contains(name@) {
                let k = choose|k: int|
                    0 <= k < self.sections_view().len() && self.sections_view()[k] == name@;
                assert(false);
            }
        }
        false
    }

    /// The value of a key that must be present; a missing key is a
    /// configuration error.
    pub fn get_required(&self, section: &str, key: &str) -> (r: Result<String, Error>)
        ensures
            match r {
                Ok(v) => lookup(self.entries_view(), section@, key@) == Some(v@),
                Err(e) => lookup(self.entries_view(), section@, key@) is None && e is ConfigError,
            },
    {
        match self.get(section, key) {
            Some(v) => Ok(v.clone()),
            None => {
                let mut m = "missing config: [".to_owned();
                m.append(section);
                m.append("].");
                m.append(key);
                Err(Error::ConfigError(m))
            },
        }
    }

    /// The value of a key, or the empty string when absent.
    pub fn get_optional(&self, section: &str, key: &str) -> (r: String)
        ensures
            r@ == opt_str(self.entries_view(), section@, key@),
    {
        match self.get(section, key) {
            Some(v) => v.clone(),
            None => String::new(),
        }
    }

    /// The value of a key, or `default` when absent.
    pub fn get_with_default(&self, section: &str, key: &str, default: &str) -> (r: String)
        ensures
            r@ == dft_str(self.entries_view(), section@, key@, default@),
    {
        match self.get(section, key) {
            Some(v) => v.clone(),
            None => default.to_owned(),
        }
    }

    /// The numeric value of a key, or `default` when absent; a value that
    /// does not parse as a decimal `u64` is a configuration error.
    pub fn get_u64(&self, section: &str, key: &str, default: u64) -> (r: Result<u64, Error>)
        ensures
            ({
                let e = self.entries_view();
                match r {
                    Ok(v) => u64_ok(e, section@, key@) && v == u64_val(e, section@, key@, default),
                    Err(x) => !u64_ok(e, section@, key@) && x is ConfigError,
                }
            }),
    {
        match self.get(section, key) {
            Some(v) => match parse_u64(v.as_str()) {
                Some(n) => Ok(n),
                None => {
                    let mut m = "config: [".to_owned();
                    m.append(section);
                    m.append("].");
                    m.append(key);
                    m.append(" is not a number");
                    Err(Error::ConfigError(m))
                },
            },
            None => Ok(default),
        }
    }

    /// The numeric value of a key that must be present and parse.
    pub fn get_required_u64(&self, section: &str, key: &str) -> (r: Result<u64, Error>)
        ensures
            ({
                let e = self.entries_view();
                match r {
                    Ok(v) => lookup(e, section@, key@) is Some && u64_ok(e, section@, key@) && v
                        == u64_val(e, section@, key@, 0),
                    Err(x) => (lookup(e, section@, key@) is None || !u64_ok(e, section@, key@))
                        && x is ConfigError,
                }
            }),
    {
        match self.get(section, key) {
            Some(_) => self.get_u64(section, key, 0),
            None => {
                let mut m = "missing config: [".to_owned();
                m.append(section);
                m.append("].");
                m.append(key);
                Err(Error::ConfigError(m))
            },
        }
    }

    /// The boolean value of a key, or `default` when absent; a value other
    /// than `true` or `false` is a configuration error.
    pub fn get_bool(&self, section: &str, key: &str, default: bool) -> (r: Result<bool, Error>)
        ensures
            ({
                let e = self.entries_view();
                match r {
                    Ok(v) => bool_ok(e, section@, key@) && v == bool_val(
                        e,
                        section@,
                        key@,
                        default,
                    ),
                    Err(x) => !bool_ok(e, section@, key@) && x is ConfigError,
                }
            }),
    {
        match self.get(section, key) {
            Some(v) => {
                if str_eq(v.as_str(), "true") {
                    Ok(true)
                } else if str_eq(v.as_str(), "false") {
                    Ok(false)
                } else {
                    let mut m = "config: [".to_owned();
                    m.append(section);
                    m.append("].");
                    m.append(key);
                    m.append(" is not a boolean");
                    Err(Error::ConfigError(m))
                }
            },
            None => Ok(default),
        }
    }
}

} // verus!

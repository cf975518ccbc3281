//! The new-tab menu of the user settings: the kinds of its entries.

use vstd::prelude::*;
use crate::json::{
    objects_from, lemma_delimiter_end_bounds, matching_delimiter, matching_delimiter_at, quoted_chars,
    quoted_key, value_start, value_start_of,
};
use crate::keyed::chars_eq;
use crate::text::{
    chars_of, copy_range, find_char_from, find_chars_from, find_from, lemma_find_from_bounds,
    spec_find,
};

verus! {

/// Kinds of new-tab menu entries.
#[derive(Debug, Clone, Copy, PartialEq, Eq, Structural)]
pub enum NewTabMenuEntryType {
    Invalid,
    Profile,
    Separator,
    Folder,
    RemainingProfiles,
    MatchProfiles,
    Action,
}

/// One entry of the new-tab menu.
#[derive(Debug, Clone, PartialEq, Eq)]
pub struct NewTabMenuEntry {
    entry_type: NewTabMenuEntryType,
}

impl View for NewTabMenuEntry {
    type V = NewTabMenuEntryType;

    closed spec fn view(&self) -> NewTabMenuEntryType {
        self.entry_type
    }
}

impl NewTabMenuEntry {
    fn new(entry_type: NewTabMenuEntryType) -> (r: Self)
        ensures
            r@ == entry_type,
    {
        NewTabMenuEntry { entry_type }
    }

    pub fn entry_type(&self) -> (r: NewTabMenuEntryType)
        ensures
            r == self@,
    {
        self.entry_type
    }
}

/// Failures while reading the new-tab menu.
#[derive(Debug, Clone, Copy, PartialEq, Eq, Structural)]
pub enum NewTabMenuParseError {
    ExpectedArray,
    UnterminatedArray,
    UnterminatedObject,
    MissingType,
    UnknownType,
}

pub open spec fn type_key() -> Seq<char> {
    seq!['t', 'y', 'p', 'e']
}

pub open spec fn menu_key() -> Seq<char> {
    seq!['n', 'e', 'w', 'T', 'a', 'b', 'M', 'e', 'n', 'u']
}

pub open spec fn profile_word() -> Seq<char> {
    seq!['p', 'r', 'o', 'f', 'i', 'l', 'e']
}

pub open spec fn separator_word() -> Seq<char> {
    seq!['s', 'e', 'p', 'a', 'r', 'a', 't', 'o', 'r']
}

pub open spec fn folder_word() -> Seq<char> {
    seq!['f', 'o', 'l', 'd', 'e', 'r']
}

pub open spec fn remaining_profiles_word() -> Seq<char> {
    seq!['r', 'e', 'm', 'a', 'i', 'n', 'i', 'n', 'g', 'P', 'r', 'o', 'f', 'i', 'l', 'e', 's']
}

pub open spec fn match_profiles_word() -> Seq<char> {
    seq!['m', 'a', 't', 'c', 'h', 'P', 'r', 'o', 'f', 'i', 'l', 'e', 's']
}

pub open spec fn action_word() -> Seq<char> {
    seq!['a', 'c', 't', 'i', 'o', 'n']
}

/// The entry kind that a `type` value names.
pub open spec fn spec_type_of_word(w: Seq<char>) -> Result<NewTabMenuEntryType, NewTabMenuParseError> {
    if w == profile_word() {
        Ok(NewTabMenuEntryType::Profile)
    } else if w == separator_word() {
        Ok(NewTabMenuEntryType::Separator)
    } else if w == folder_word() {
        Ok(NewTabMenuEntryType::Folder)
    } else if w == remaining_profiles_word() {
        Ok(NewTabMenuEntryType::RemainingProfiles)
    } else if w == match_profiles_word() {
        Ok(NewTabMenuEntryType::MatchProfiles)
    } else if w == action_word() {
        Ok(NewTabMenuEntryType::Action)
    } else {
        Err(NewTabMenuParseError::UnknownType)
    }
}

/// The kind of one entry object: its `type` member must be a string.
pub open spec fn spec_entry_type(o: Seq<char>) -> Result<NewTabMenuEntryType, NewTabMenuParseError> {
    match value_start(o, type_key()) {
        None => Err(NewTabMenuParseError::MissingType),
        Some(v) => if v >= o.len() || o[v] != '"' {
            Err(NewTabMenuParseError::MissingType)
        } else {
            match find_from(o, seq!['"'], v + 1) {
                None => Err(NewTabMenuParseError::MissingType),
                Some(q) => spec_type_of_word(o.subrange(v + 1, q)),
            }
        },
    }
}

/// The entry kinds of the objects of `arr` from `cursor` on, in order; the
/// first failure is reported.
pub open spec fn entries_from(arr: Seq<char>, cursor: int) -> Result<
    Seq<NewTabMenuEntryType>,
    NewTabMenuParseError,
>
    decreases arr.len() - cursor,
{
    if cursor < 0 || cursor >= arr.len() {
        Ok(Seq::empty())
    } else {
        match find_from(arr, seq!['{'], cursor) {
            None => Ok(Seq::empty()),
            Some(st) => match matching_delimiter(arr, st, '{', '}') {
                None => Err(NewTabMenuParseError::UnterminatedObject),
                Some(e) => {
                    proof {
                        lemma_find_from_bounds(arr, seq!['{'], cursor);
                        lemma_delimiter_end_bounds(arr, st, 0, false, false, '{', '}');
                    }
                    match spec_entry_type(arr.subrange(st, e + 1)) {
                        Err(x) => Err(x),
                        Ok(t) => match entries_from(arr, e + 1) {
                            Err(x) => Err(x),
                            Ok(rest) => Ok(seq![t] + rest),
                        },
                    }
                },
            },
        }
    }
}

/// The menu of a user settings object.  Without a `newTabMenu` property
/// the menu is one `RemainingProfiles` entry; a present array is kept as
/// written.
pub open spec fn spec_new_tab_menu(s: Seq<char>) -> Result<
    Seq<NewTabMenuEntryType>,
    NewTabMenuParseError,
> {
    match spec_find(s, quoted_key(menu_key())) {
        None => Ok(seq![NewTabMenuEntryType::RemainingProfiles]),
        Some(k) => match find_from(s, seq!['['], k + quoted_key(menu_key()).len()) {
            None => Err(NewTabMenuParseError::ExpectedArray),
            Some(a) => match matching_delimiter(s, a, '[', ']') {
                None => Err(NewTabMenuParseError::UnterminatedArray),
                Some(e) => entries_from(s.subrange(a + 1, e), 0),
            },
        },
    }
}

fn type_of_word(w: &[char]) -> (r: Result<NewTabMenuEntryType, NewTabMenuParseError>)
    ensures
        r == spec_type_of_word(w@),
{
    let profile = vec!['p', 'r', 'o', 'f', 'i', 'l', 'e'];
    let separator = vec!['s', 'e', 'p', 'a', 'r', 'a', 't', 'o', 'r'];
    let folder = vec!['f', 'o', 'l', 'd', 'e', 'r'];
    let remaining = vec![
        'r', 'e', 'm', 'a', 'i', 'n', 'i', 'n', 'g', 'P', 'r', 'o', 'f', 'i', 'l', 'e', 's',
    ];
    let matching = vec!['m', 'a', 't', 'c', 'h', 'P', 'r', 'o', 'f', 'i', 'l', 'e', 's'];
    let action = vec!['a', 'c', 't', 'i', 'o', 'n'];
    assert(profile@ == profile_word());
    assert(separator@ == separator_word());
    assert(folder@ == folder_word());
    assert(remaining@ == remaining_profiles_word());
    assert(matching@ == match_profiles_word());
    assert(action@ == action_word());
    if chars_eq(w, profile.as_slice()) {
        Ok(NewTabMenuEntryType::Profile)
    } else if chars_eq(w, separator.as_slice()) {
        Ok(NewTabMenuEntryType::Separator)
    } else if chars_eq(w, folder.as_slice()) {
        Ok(NewTabMenuEntryType::Folder)
    } else if chars_eq(w, remaining.as_slice()) {
        Ok(NewTabMenuEntryType::RemainingProfiles)
    } else if chars_eq(w, matching.as_slice()) {
        Ok(NewTabMenuEntryType::MatchProfiles)
    } else if chars_eq(w, action.as_slice()) {
        Ok(NewTabMenuEntryType::Action)
    } else {
        Err(NewTabMenuParseError::UnknownType)
    }
}

fn parse_entry_type(o: &[char]) -> (r: Result<NewTabMenuEntryType, NewTabMenuParseError>)
    ensures
        r == spec_entry_type(o@),
{
    let key = vec!['t', 'y', 'p', 'e'];
    assert(key@ == type_key());
    let v = match value_start_of(o, key.as_slice()) {
        None => return Err(NewTabMenuParseError::MissingType),
        Some(v) => v,
    };
    if v >= o.len() || o[v] != '"' {
        return Err(NewTabMenuParseError::MissingType);
    }
    proof {
        lemma_find_from_bounds(o@, seq!['"'], v + 1);
    }
    match find_char_from(o, '"', v + 1) {
        None => Err(NewTabMenuParseError::MissingType),
        Some(q) => {
            let word = copy_range(o, v + 1, q);
            type_of_word(word.as_slice())
        },
    }
}

/// The entry kinds of the objects in the array interior `arr`.
fn parse_entries(arr: &[char]) -> (r: Result<Vec<NewTabMenuEntry>, NewTabMenuParseError>)
    ensures
        match (r, entries_from(arr@, 0)) {
            (Ok(v), Ok(types)) => v@.map_values(|e: NewTabMenuEntry| e@) == types,
            (Err(e), Err(f)) => e == f,
            _ => false,
        },
{
    let n = arr.len();
    let mut entries: Vec<NewTabMenuEntry> = Vec::new();
    let mut cursor: usize = 0;
    let ghost done: Seq<NewTabMenuEntryType> = Seq::empty();
    while cursor < n
        invariant
            n == arr@.len(),
            cursor <= n,
            entries@.map_values(|e: NewTabMenuEntry| e@) == done,
            entries_from(arr@, 0) == match entries_from(arr@, cursor as int) {
                Ok(rest) => Ok(done + rest),
                Err(x) => Err(x),
            },
        ensures
            entries@.map_values(|e: NewTabMenuEntry| e@) == done,
            entries_from(arr@, 0) == Ok::<Seq<NewTabMenuEntryType>, NewTabMenuParseError>(done),
        decreases n - cursor,
    {
        proof {
            lemma_find_from_bounds(arr@, seq!['{'], cursor as int);
        }
        let start = match find_char_from(arr, '{', cursor) {
            None => {
                assert(done + Seq::<NewTabMenuEntryType>::empty() =~= done);
                break;
            },
            Some(start) => start,
        };
        proof {
            lemma_delimiter_end_bounds(arr@, start as int, 0, false, false, '{', '}');
        }
        let end = match matching_delimiter_at(arr, start, '{', '}') {
            None => {
                return Err(NewTabMenuParseError::UnterminatedObject);
            },
            Some(end) => end,
        };
        let object = copy_range(arr, start, end + 1);
        let entry_type = parse_entry_type(object.as_slice())?;
        let ghost before = entries@;
        entries.push(NewTabMenuEntry::new(entry_type));
        proof {
            assert(entries@.map_values(|e: NewTabMenuEntry| e@) =~= done.push(entry_type));
            match entries_from(arr@, end + 1) {
                Ok(rest) => {
                    assert(done.push(entry_type) + rest =~= done + (seq![entry_type] + rest));
                },
                Err(_) => {},
            }
            done = done.push(entry_type);
        }
        cursor = end + 1;
        proof {
            if cursor >= n {
                assert(done + Seq::<NewTabMenuEntryType>::empty() =~= done);
            }
        }
    }
    Ok(entries)
}

/// The menu has one entry per top-level object of the array, each the
/// kind that the object's `type` names.
pub proof fn law_one_entry_per_object(arr: Seq<char>, cursor: int)
    ensures
        entries_from(arr, cursor) matches Ok(types) ==> (objects_from(arr, cursor) matches Some(objs)
            && objs.len() == types.len() && forall|k: int|
            0 <= k < objs.len() ==> spec_entry_type(#[trigger] objs[k]) == Ok::<
                NewTabMenuEntryType,
                NewTabMenuParseError,
            >(types[k])),
    decreases arr.len() - cursor,
{
    if 0 <= cursor < arr.len() {
        lemma_find_from_bounds(arr, seq!['{'], cursor);
        if let Some(st) = find_from(arr, seq!['{'], cursor) {
            if let Some(e) = matching_delimiter(arr, st, '{', '}') {
                lemma_delimiter_end_bounds(arr, st, 0, false, false, '{', '}');
                law_one_entry_per_object(arr, e + 1);
                if let (Ok(t), Ok(rest), Some(orest)) = (
                    spec_entry_type(arr.subrange(st, e + 1)),
                    entries_from(arr, e + 1),
                    objects_from(arr, e + 1),
                ) {
                    let objs = seq![arr.subrange(st, e + 1)] + orest;
                    let types = seq![t] + rest;
                    assert forall|k: int| 0 <= k < objs.len() implies spec_entry_type(
                        #[trigger] objs[k],
                    ) == Ok::<NewTabMenuEntryType, NewTabMenuParseError>(types[k]) by {
                        if k > 0 {
                            assert(objs[k] == orest[k - 1]);
                            assert(types[k] == rest[k - 1]);
                        }
                    }
                }
            }
        }
    }
}

/// The new-tab menu and the warnings met while reading it.
#[derive(Debug, Clone, PartialEq, Eq)]
pub struct NewTabMenuSettings {
    entries: Vec<NewTabMenuEntry>,
    warnings: Vec<String>,
}

pub struct NewTabMenuView {
    pub entries: Seq<NewTabMenuEntryType>,
    pub warnings: Seq<Seq<char>>,
}

impl View for NewTabMenuSettings {
    type V = NewTabMenuView;

    closed spec fn view(&self) -> NewTabMenuView {
        NewTabMenuView {
            entries: self.entries@.map_values(|e: NewTabMenuEntry| e@),
            warnings: self.warnings@.map_values(|w: String| w@),
        }
    }
}

impl NewTabMenuSettings {
    /// Reads the `newTabMenu` property of a user settings object.
    pub fn from_user_settings_json(input: &str) -> (r: Result<Self, NewTabMenuParseError>)
        ensures
            match (r, spec_new_tab_menu(input@)) {
                (Ok(m), Ok(types)) => m@.entries == types && m@.warnings.len() == 0,
                (Err(e), Err(f)) => e == f,
                _ => false,
            },
    {
        let s = chars_of(input);
        let name = vec!['n', 'e', 'w', 'T', 'a', 'b', 'M', 'e', 'n', 'u'];
        assert(name@ == menu_key());
        let key = quoted_chars(name.as_slice());
        proof {
            lemma_find_from_bounds(s@, key@, 0);
        }
        let k = match find_chars_from(s.as_slice(), key.as_slice(), 0) {
            None => {
                let mut entries: Vec<NewTabMenuEntry> = Vec::new();
                entries.push(NewTabMenuEntry::new(NewTabMenuEntryType::RemainingProfiles));
                let r = NewTabMenuSettings { entries, warnings: Vec::new() };
                assert(r@.entries =~= seq![NewTabMenuEntryType::RemainingProfiles]);
                return Ok(r);
            },
            Some(k) => k,
        };
        let n = s.len();
        assert(k + key@.len() <= n);
        let after = k + key.len();
        proof {
            lemma_find_from_bounds(s@, seq!['['], after as int);
        }
        let a = match find_char_from(s.as_slice(), '[', after) {
            None => return Err(NewTabMenuParseError::ExpectedArray),
            Some(a) => a,
        };
        proof {
            assert(s@.subrange(a as int, a + 1)[0] == s@[a as int]);
            assert(s@[a as int] == '[');
            assert(matching_delimiter(s@, a as int, '[', ']') == crate::json::delimiter_end(
                s@,
                a + 1,
                1,
                false,
                false,
                '[',
                ']',
            ));
            lemma_delimiter_end_bounds(s@, a + 1, 1, false, false, '[', ']');
        }
        let e = match matching_delimiter_at(s.as_slice(), a, '[', ']') {
            None => return Err(NewTabMenuParseError::UnterminatedArray),
            Some(e) => e,
        };
        let array = copy_range(s.as_slice(), a + 1, e);
        let entries = parse_entries(array.as_slice())?;
        let r = NewTabMenuSettings { entries, warnings: Vec::new() };
        assert(r@.warnings =~= Seq::<Seq<char>>::empty());
        Ok(r)
    }

    pub fn entries(&self) -> (r: &[NewTabMenuEntry])
        ensures
            r@.map_values(|e: NewTabMenuEntry| e@) == self@.entries,
    {
        self.entries.as_slice()
    }

    pub fn warnings(&self) -> (r: &[String])
        ensures
            r@.map_values(|w: String| w@) == self@.warnings,
    {
        self.warnings.as_slice()
    }
}

} // verus!

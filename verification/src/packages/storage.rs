//! The content-addressed store: names, paths and lookups.

use vstd::prelude::*;
use crate::common::text::{from_chars, push_all, to_chars};

verus! {

/// A character of the ASCII range.
pub open spec fn is_ascii_char(c: char) -> bool {
    c <= '\u{7f}'
}

/// A character that separates path components: `/` or `\`.
pub open spec fn is_separator(c: char) -> bool {
    c == '/' || c == '\\'
}

/// The predicate "is an ASCII character".
pub open spec fn ascii_chars() -> spec_fn(char) -> bool {
    |c: char| is_ascii_char(c)
}

/// The predicate "is no path separator".
pub open spec fn plain_chars() -> spec_fn(char) -> bool {
    |c: char| !is_separator(c)
}

/// `s` without every occurrence of `..`, found from the left and never
/// overlapping: of three dots in a row the first two go and the third stays.
pub open spec fn without_parent_refs(s: Seq<char>) -> Seq<char>
    decreases s.len(),
{
    if s.len() < 2 {
        s
    } else if s[0] == '.' && s[1] == '.' {
        without_parent_refs(s.skip(2))
    } else {
        seq![s[0]] + without_parent_refs(s.skip(1))
    }
}

/// The sanitized form of a name.  Three steps, in this order: characters
/// outside ASCII are dropped, then every path separator, then every `..`.
/// The `..` go last, so that no two dots meet over something that is dropped
/// after them.
pub open spec fn sanitized(name: Seq<char>) -> Seq<char> {
    without_parent_refs(name.filter(ascii_chars()).filter(plain_chars()))
}

/// `s` holds two dots in a row.
pub open spec fn has_parent_ref(s: Seq<char>) -> bool {
    exists|i: int| 0 <= i && i + 1 < s.len() && #[trigger] s[i] == '.' && s[i + 1] == '.'
}

/// `s` holds a path separator.
pub open spec fn has_separator(s: Seq<char>) -> bool {
    exists|i: int| 0 <= i < s.len() && is_separator(#[trigger] s[i])
}

/// The file name of a store entry: the hash's digits, a `-`, and the
/// sanitized name.
pub open spec fn entry_name(name: Seq<char>, hash: Seq<char>) -> Seq<char> {
    hash + seq!['-'] + sanitized(name)
}

/// `entry` placed in the directory `folder`: a `/` comes between them unless
/// `folder` is empty or already ends with one.
pub open spec fn joined(folder: Seq<char>, entry: Seq<char>) -> Seq<char> {
    if folder.len() == 0 || folder.last() == '/' {
        folder + entry
    } else {
        folder + seq!['/'] + entry
    }
}

/// Every character of `without_parent_refs(s)` is a character of `s`.
pub proof fn lemma_parent_refs_keep_chars(s: Seq<char>)
    ensures
        forall|i: int|
            0 <= i < without_parent_refs(s).len() ==> s.contains(
                #[trigger] without_parent_refs(s)[i],
            ),
    decreases s.len(),
{
    let r = without_parent_refs(s);
    if s.len() < 2 {
        assert forall|i: int| 0 <= i < r.len() implies s.contains(#[trigger] r[i]) by {
            assert(s[i] == r[i]);
        }
    } else if s[0] == '.' && s[1] == '.' {
        let inner = without_parent_refs(s.skip(2));
        lemma_parent_refs_keep_chars(s.skip(2));
        assert(r == inner);
        assert forall|i: int| 0 <= i < r.len() implies s.contains(#[trigger] r[i]) by {
            assert(s.skip(2).contains(inner[i]));
            let j = choose|j: int| 0 <= j < s.skip(2).len() && s.skip(2)[j] == inner[i];
            assert(s[j + 2] == r[i]);
        }
    } else {
        lemma_parent_refs_keep_chars(s.skip(1));
        let tail = without_parent_refs(s.skip(1));
        assert forall|i: int| 0 <= i < r.len() implies s.contains(#[trigger] r[i]) by {
            if i == 0 {
                assert(s[0] == r[0]);
            } else {
                assert(r[i] == tail[i - 1]);
                assert(s.skip(1).contains(tail[i - 1]));
                let j = choose|j: int| 0 <= j < s.skip(1).len() && s.skip(1)[j] == tail[i - 1];
                assert(s[j + 1] == r[i]);
            }
        }
    }
}

/// `without_parent_refs(s)` never holds two dots in a row.
pub proof fn lemma_parent_refs_are_gone(s: Seq<char>)
    ensures
        !has_parent_ref(without_parent_refs(s)),
    decreases s.len(),
{
    let r = without_parent_refs(s);
    if s.len() < 2 {
    } else if s[0] == '.' && s[1] == '.' {
        lemma_parent_refs_are_gone(s.skip(2));
    } else {
        let rest = s.skip(1);
        let tail = without_parent_refs(rest);
        lemma_parent_refs_are_gone(rest);
        if has_parent_ref(r) {
            let i = choose|i: int| 0 <= i && i + 1 < r.len() && #[trigger] r[i] == '.' && r[i + 1] == '.';
            if i == 0 {
                // `s` begins with one dot and not with two, so `rest` begins
                // with none, and `tail` begins as `rest` does.
                assert(rest[0] == s[1]);
                assert(tail[0] == rest[0]);
                assert(r[1] == tail[0]);
                assert(false);
            } else {
                assert(tail[i - 1] == r[i]);
                assert(tail[i - 1 + 1] == r[i + 1]);
                assert(false);
            }
        }
    }
}

/// A filter that every element passes changes nothing.
pub proof fn lemma_filter_keeps_all(s: Seq<char>, pred: spec_fn(char) -> bool)
    requires
        forall|i: int| 0 <= i < s.len() ==> pred(#[trigger] s[i]),
    ensures
        s.filter(pred) == s,
    decreases s.len(),
{
    reveal(Seq::filter);
    if s.len() > 0 {
        lemma_filter_keeps_all(s.drop_last(), pred);
        assert(s.drop_last().push(s.last()) =~= s);
    }
}

/// A name without two dots in a row is its own `without_parent_refs`.
pub proof fn lemma_parent_refs_absent(s: Seq<char>)
    requires
        !has_parent_ref(s),
    ensures
        without_parent_refs(s) == s,
    decreases s.len(),
{
    if s.len() >= 2 {
        if s[0] == '.' && s[1] == '.' {
            assert(s[0int] == '.' && s[0int + 1] == '.');
            assert(false);
        }
        let rest = s.skip(1);
        if has_parent_ref(rest) {
            let i = choose|i: int| 0 <= i && i + 1 < rest.len() && #[trigger] rest[i] == '.' && rest[i + 1] == '.';
            assert(s[i + 1] == '.' && s[i + 1 + 1] == '.');
            assert(false);
        }
        lemma_parent_refs_absent(rest);
        assert(seq![s[0]] + rest =~= s);
    }
}

/// A sanitized name holds only ASCII characters, no path separator and no
/// `..`, whatever the name was.
pub proof fn law_sanitized_is_safe(name: Seq<char>)
    ensures
        !has_separator(sanitized(name)),
        !has_parent_ref(sanitized(name)),
        forall|i: int| 0 <= i < sanitized(name).len() ==> is_ascii_char(#[trigger] sanitized(name)[i]),
{
    let ascii = name.filter(ascii_chars());
    let plain = ascii.filter(plain_chars());
    let clean = without_parent_refs(plain);
    lemma_parent_refs_are_gone(plain);
    lemma_parent_refs_keep_chars(plain);
    assert forall|i: int| 0 <= i < clean.len() implies !is_separator(#[trigger] clean[i])
        && is_ascii_char(clean[i]) by {
        let j = choose|j: int| 0 <= j < plain.len() && plain[j] == clean[i];
        ascii.lemma_filter_pred(plain_chars(), j);
        ascii.lemma_filter_contains_rev(plain_chars(), plain[j]);
        let k = choose|k: int| 0 <= k < ascii.len() && ascii[k] == plain[j];
        name.lemma_filter_pred(ascii_chars(), k);
    }
}

/// A name of ASCII characters that holds no `..`, no `/` and no `\` is left
/// as it is.
pub proof fn law_sanitize_keeps_plain_names(name: Seq<char>)
    requires
        forall|i: int| 0 <= i < name.len() ==> is_ascii_char(#[trigger] name[i]),
        !has_parent_ref(name),
        !has_separator(name),
    ensures
        sanitized(name) == name,
{
    lemma_filter_keeps_all(name, ascii_chars());
    lemma_filter_keeps_all(name, plain_chars());
    lemma_parent_refs_absent(name);
}

/// Sanitizing a sanitized name changes nothing.
pub proof fn law_sanitize_is_idempotent(name: Seq<char>)
    ensures
        sanitized(sanitized(name)) == sanitized(name),
{
    law_sanitized_is_safe(name);
    law_sanitize_keeps_plain_names(sanitized(name));
}

/// Two store entries have the same file name only if they have the same hash
/// and their names sanitize to the same text: a hash holds no `-`, so the
/// first `-` of a file name ends the hash.
pub proof fn law_entry_names_tell_apart(
    name1: Seq<char>,
    hash1: Seq<char>,
    name2: Seq<char>,
    hash2: Seq<char>,
)
    requires
        crate::packages::hash::is_hash_text(hash1),
        crate::packages::hash::is_hash_text(hash2),
    ensures
        entry_name(name1, hash1) == entry_name(name2, hash2) <==> (hash1 == hash2 && sanitized(name1)
            == sanitized(name2)),
{
    let e1 = entry_name(name1, hash1);
    let e2 = entry_name(name2, hash2);
    if e1 == e2 {
        if hash1.len() < hash2.len() {
            assert(e1[hash1.len() as int] == '-');
            assert(e2[hash1.len() as int] == hash2[hash1.len() as int]);
            assert(false);
        }
        if hash2.len() < hash1.len() {
            assert(e2[hash2.len() as int] == '-');
            assert(e1[hash2.len() as int] == hash1[hash2.len() as int]);
            assert(false);
        }
        assert(hash1 =~= e1.take(hash1.len() as int));
        assert(hash2 =~= e2.take(hash2.len() as int));
        assert(sanitized(name1) =~= e1.skip(hash1.len() as int + 1));
        assert(sanitized(name2) =~= e2.skip(hash2.len() as int + 1));
    }
}

/// In one directory, two entries have the same path only if they have the
/// same file name.
pub proof fn law_paths_tell_apart(folder: Seq<char>, entry1: Seq<char>, entry2: Seq<char>)
    ensures
        joined(folder, entry1) == joined(folder, entry2) <==> entry1 == entry2,
{
    let p1 = joined(folder, entry1);
    let p2 = joined(folder, entry2);
    if p1 == p2 {
        let k = p1.len() - entry1.len();
        assert(entry1 =~= p1.skip(k));
        assert(entry2 =~= p2.skip(k));
    }
}

/// Addressing in a store: the path of an entry is fixed by the directory, the
/// hash and the sanitized name, and two entries of one store share a path
/// only if they agree in both hash and sanitized name.
pub proof fn law_addressing(
    folder: Seq<char>,
    name1: Seq<char>,
    hash1: Seq<char>,
    name2: Seq<char>,
    hash2: Seq<char>,
)
    requires
        crate::packages::hash::is_hash_text(hash1),
        crate::packages::hash::is_hash_text(hash2),
    ensures
        joined(folder, entry_name(name1, hash1)) == joined(folder, entry_name(name2, hash2)) <==> (
        hash1 == hash2 && sanitized(name1) == sanitized(name2)),
{
    law_entry_names_tell_apart(name1, hash1, name2, hash2);
    law_paths_tell_apart(folder, entry_name(name1, hash1), entry_name(name2, hash2));
}

/// The text of an optional path.
pub open spec fn text_of_path(path: Option<String>) -> Option<Seq<char>> {
    match path {
        Some(path) => Some(path@),
        None => None,
    }
}

/// The texts of the file names of a directory listing.
pub open spec fn listed(entries: Seq<String>) -> Seq<Seq<char>> {
    Seq::new(entries.len(), |i: int| entries[i]@)
}

/// `i` is the place of the first name of the listing that begins with the
/// digits of `hash`.
pub open spec fn is_first_with_hash(names: Seq<Seq<char>>, hash: Seq<char>, i: int) -> bool {
    &&& 0 <= i < names.len()
    &&& hash.is_prefix_of(names[i])
    &&& forall|j: int| 0 <= j < i ==> !hash.is_prefix_of(#[trigger] names[j])
}

/// The place of the first name of the listing that begins with the digits of
/// `hash`.
pub open spec fn first_with_hash(names: Seq<Seq<char>>, hash: Seq<char>) -> Option<int> {
    if exists|i: int| is_first_with_hash(names, hash, i) {
        Some(choose|i: int| is_first_with_hash(names, hash, i))
    } else {
        None
    }
}

/// The path of the entry that holds the content `hash`, where the listing of
/// the store has one: of the first, where it has several.
pub open spec fn stored_at(folder: Seq<char>, names: Seq<Seq<char>>, hash: Seq<char>) -> Option<
    Seq<char>,
> {
    match first_with_hash(names, hash) {
        Some(i) => Some(joined(folder, names[i])),
        None => None,
    }
}

/// The paths of the entries whose file name ends with `suffix`, in the order
/// of the listing.
pub open spec fn paths_ending_with(
    folder: Seq<char>,
    names: Seq<Seq<char>>,
    suffix: Seq<char>,
) -> Seq<Seq<char>>
    decreases names.len(),
{
    if names.len() == 0 {
        Seq::empty()
    } else if suffix.is_suffix_of(names.last()) {
        paths_ending_with(folder, names.drop_last(), suffix).push(joined(folder, names.last()))
    } else {
        paths_ending_with(folder, names.drop_last(), suffix)
    }
}

/// The first entry for a hash is the one that `first_with_hash` gives.
pub proof fn lemma_first_with_hash(names: Seq<Seq<char>>, hash: Seq<char>, i: int)
    requires
        is_first_with_hash(names, hash, i),
    ensures
        first_with_hash(names, hash) == Some(i),
{
    let found = choose|k: int| is_first_with_hash(names, hash, k);
    assert(is_first_with_hash(names, hash, found));
    if found < i {
        assert(!hash.is_prefix_of(names[found]));
    }
    if i < found {
        assert(!hash.is_prefix_of(names[i]));
    }
}

/// Handle on a content-addressed store: a flat directory whose entries are
/// named by `entry_name`.
pub struct Storage {
    folder: String,
}

impl View for Storage {
    type V = Seq<char>;

    /// The directory of the store.
    closed spec fn view(&self) -> Seq<char> {
        self.folder@
    }
}

fn keep_ascii(s: &Vec<char>) -> (r: Vec<char>)
    ensures
        r@ == s@.filter(ascii_chars()),
{
    let mut r: Vec<char> = Vec::new();
    let n: usize = s.len();
    let mut i: usize = 0;
    proof {
        reveal(Seq::filter);
        assert(s@.take(0) =~= Seq::<char>::empty());
    }
    while i < n
        invariant
            n == s@.len(),
            i <= n,
            r@ == s@.take(i as int).filter(ascii_chars()),
        decreases n - i,
    {
        let c = s[i];
        proof {
            assert(s@.take(i + 1) =~= s@.take(i as int).push(c));
            s@.take(i as int).lemma_filter_push(c, ascii_chars());
        }
        if c <= '\u{7f}' {
            r.push(c);
        }
        i += 1;
    }
    assert(s@.take(n as int) =~= s@);
    r
}

fn drop_separators(s: &Vec<char>) -> (r: Vec<char>)
    ensures
        r@ == s@.filter(plain_chars()),
{
    let mut r: Vec<char> = Vec::new();
    let n: usize = s.len();
    let mut i: usize = 0;
    proof {
        reveal(Seq::filter);
        assert(s@.take(0) =~= Seq::<char>::empty());
    }
    while i < n
        invariant
            n == s@.len(),
            i <= n,
            r@ == s@.take(i as int).filter(plain_chars()),
        decreases n - i,
    {
        let c = s[i];
        proof {
            assert(s@.take(i + 1) =~= s@.take(i as int).push(c));
            s@.take(i as int).lemma_filter_push(c, plain_chars());
        }
        if !(c == '/' || c == '\\') {
            r.push(c);
        }
        i += 1;
    }
    assert(s@.take(n as int) =~= s@);
    r
}

fn drop_parent_refs(s: &Vec<char>) -> (r: Vec<char>)
    ensures
        r@ == without_parent_refs(s@),
{
    let mut r: Vec<char> = Vec::new();
    let n: usize = s.len();
    let mut i: usize = 0;
    assert(s@.skip(0) =~= s@);
    while i < n
        invariant
            n == s@.len(),
            i <= n,
            r@ + without_parent_refs(s@.skip(i as int)) == without_parent_refs(s@),
        decreases n - i,
    {
        let ghost rest = s@.skip(i as int);
        if i + 1 < n && s[i] == '.' && s[i + 1] == '.' {
            assert(rest.skip(2) =~= s@.skip(i + 2));
            i += 2;
        } else {
            proof {
                assert(rest.skip(1) =~= s@.skip(i + 1));
                if rest.len() < 2 {
                    assert(rest =~= seq![s@[i as int]]);
                    assert(without_parent_refs(rest.skip(1)) =~= Seq::<char>::empty());
                }
                assert(without_parent_refs(rest) =~= seq![s@[i as int]] + without_parent_refs(
                    rest.skip(1),
                ));
                assert(r@.push(s@[i as int]) + without_parent_refs(rest.skip(1)) =~= r@
                    + without_parent_refs(rest));
            }
            r.push(s[i]);
            i += 1;
        }
    }
    assert(s@.skip(n as int) =~= Seq::<char>::empty());
    assert(r@ + Seq::<char>::empty() =~= r@);
    r
}

/// Places `entry` in the directory `folder`.
pub fn join_path(folder: &str, entry: &str) -> (path: String)
    ensures
        path@ == joined(folder@, entry@),
{
    let mut chars = to_chars(folder);
    let n: usize = chars.len();
    if n > 0 && chars[n - 1] != '/' {
        chars.push('/');
    }
    let tail = to_chars(entry);
    push_all(&mut chars, &tail);
    from_chars(&chars)
}

impl Storage {
    /// A handle on the store kept in the directory `folder`.
    pub fn new(folder: String) -> (storage: Storage)
        ensures
            storage@ == folder@,
    {
        Storage { folder }
    }

    /// The directory of the store.
    pub fn folder(&self) -> (folder: &String)
        ensures
            folder@ == self@,
    {
        &self.folder
    }

    /// Removes from a name what could reach outside the store's directory
    /// once the name is part of a file name: characters outside ASCII, then
    /// every `/` and `\`, then every `..`.  What is left holds none of
    /// these, and sanitizing it again changes nothing.
    pub fn sanitize_name(name: &str) -> (clean: String)
        ensures
            clean@ == sanitized(name@),
            !has_separator(clean@),
            !has_parent_ref(clean@),
            forall|i: int| 0 <= i < clean@.len() ==> is_ascii_char(#[trigger] clean@[i]),
    {
        proof {
            law_sanitized_is_safe(name@);
        }
        let chars = to_chars(name);
        let ascii = keep_ascii(&chars);
        let plain = drop_separators(&ascii);
        let flat = drop_parent_refs(&plain);
        from_chars(&flat)
    }

    /// Finds the entry that holds the content `hash`.  `entries` is the
    /// listing of the store's directory, file names only; the first name that
    /// begins with the digits of the hash counts.
    pub fn search_hash(&self, entries: &Vec<String>, hash: &crate::packages::hash::Hash) -> (found: Option<
        String,
    >)
        ensures
            text_of_path(found) == stored_at(self@, listed(entries@), hash@),
    {
        let n: usize = entries.len();
        let mut i: usize = 0;
        while i < n
            invariant
                n == entries@.len(),
                i <= n,
                forall|j: int| 0 <= j < i ==> !hash@.is_prefix_of(#[trigger] listed(entries@)[j]),
            decreases n - i,
        {
            let name = to_chars(entries[i].as_str());
            if crate::common::text::starts_with(&name, hash.digits()) {
                proof {
                    assert(listed(entries@)[i as int] == name@);
                    lemma_first_with_hash(listed(entries@), hash@, i as int);
                }
                return Some(join_path(self.folder.as_str(), entries[i].as_str()));
            }
            i += 1;
        }
        None
    }

    /// Finds the entries stored for `name`, whatever their hash: those whose
    /// file name ends with the sanitized name, in the order of the listing.
    pub fn search_name(&self, entries: &Vec<String>, name: &str) -> (paths: Vec<String>)
        ensures
            listed(paths@) == paths_ending_with(self@, listed(entries@), sanitized(name@)),
    {
        let suffix = to_chars(Self::sanitize_name(name).as_str());
        let mut paths: Vec<String> = Vec::new();
        let n: usize = entries.len();
        let mut i: usize = 0;
        let ghost names = listed(entries@);
        assert(names.take(0) =~= Seq::empty());
        assert(listed(paths@) =~= Seq::empty());
        while i < n
            invariant
                n == entries@.len(),
                i <= n,
                names == listed(entries@),
                suffix@ == sanitized(name@),
                listed(paths@) == paths_ending_with(self@, names.take(i as int), suffix@),
            decreases n - i,
        {
            proof {
                assert(names.take(i + 1).drop_last() =~= names.take(i as int));
                assert(names.take(i + 1).last() == names[i as int]);
            }
            let entry = to_chars(entries[i].as_str());
            if crate::common::text::ends_with(&entry, &suffix) {
                let ghost before = paths@;
                let path = join_path(self.folder.as_str(), entries[i].as_str());
                paths.push(path);
                assert(listed(paths@) =~= listed(before).push(path@));
            }
            i += 1;
        }
        assert(names.take(n as int) =~= names);
        paths
    }

    /// The file name under which content `hash` is stored for `name`.
    pub fn entry_name(name: &str, hash: &crate::packages::hash::Hash) -> (entry: String)
        ensures
            entry@ == entry_name(name@, hash@),
    {
        let mut chars = crate::common::text::copy_chars(hash.digits());
        chars.push('-');
        let clean = to_chars(Self::sanitize_name(name).as_str());
        push_all(&mut chars, &clean);
        from_chars(&chars)
    }

    /// The path of the store entry for `name` with content `hash`: the entry's
    /// file name, placed in the store's directory.
    pub fn build_path(&self, name: &str, hash: &crate::packages::hash::Hash) -> (path: String)
        ensures
            path@ == joined(self@, entry_name(name@, hash@)),
    {
        let entry = Self::entry_name(name, hash);
        join_path(self.folder.as_str(), entry.as_str())
    }
}

} // verus!

//! Localized messages: a store of message texts keyed by `language.key`,
//! filled from `messages_<language>.properties` files, and the lookup that
//! picks the text for the languages a request accepts and fills in its
//! numbered placeholders.

use vstd::prelude::*;
use vstd::string::*;
use crate::context::strings_view;
use crate::text::{
    decimal, ends_with, find_char, lemma_index_of_bounds, replace_all, replace_str, split_once,
    starts_with, str_ends_with, str_starts_with, usize_to_decimal,
};

verus! {

/// The message texts, each under a distinct key.
pub struct MessageStore {
    entries: Vec<(String, String)>,
}

/// Whether `k` is the key of one of the entries.
pub open spec fn has_key(s: Seq<(String, String)>, k: Seq<char>) -> bool {
    exists|j: int| 0 <= j < s.len() && (#[trigger] s[j]).0@ == k
}

/// The entries as a map from key to text, for entries with distinct keys.
pub open spec fn entries_map(s: Seq<(String, String)>) -> Map<Seq<char>, Seq<char>> {
    Map::new(
        |k: Seq<char>| has_key(s, k),
        |k: Seq<char>| s[choose|j: int| 0 <= j < s.len() && (#[trigger] s[j]).0@ == k].1@,
    )
}

pub open spec fn distinct_keys(s: Seq<(String, String)>) -> bool {
    forall|i: int, j: int| 0 <= i < s.len() && 0 <= j < s.len() && i != j ==> (#[trigger] s[i]).0@
        != (#[trigger] s[j]).0@
}

proof fn lemma_entries_map_at(s: Seq<(String, String)>, j: int)
    requires
        distinct_keys(s),
        0 <= j < s.len(),
    ensures
        entries_map(s).contains_key(s[j].0@),
        entries_map(s)[s[j].0@] == s[j].1@,
{
    let k = s[j].0@;
    assert(has_key(s, k));
    let c = choose|i: int| 0 <= i < s.len() && (#[trigger] s[i]).0@ == k;
    assert(c == j);
}

impl View for MessageStore {
    type V = Map<Seq<char>, Seq<char>>;

    closed spec fn view(&self) -> Map<Seq<char>, Seq<char>> {
        entries_map(self.entries@)
    }
}

impl MessageStore {
    #[verifier::type_invariant]
    closed spec fn keys_distinct(&self) -> bool {
        distinct_keys(self.entries@)
    }

    /// An empty store.
    pub fn new() -> (r: MessageStore)
        ensures
            r@ == Map::<Seq<char>, Seq<char>>::empty(),
    {
        let r = MessageStore { entries: Vec::new() };
        assert(r@ =~= Map::<Seq<char>, Seq<char>>::empty());
        r
    }

    /// Position of the entry with key `key`, if there is one.
    fn position(&self, key: &str) -> (r: Option<usize>)
        ensures
            match r {
                Some(j) => j < self.entries@.len() && self.entries@[j as int].0@ == key@,
                None => !has_key(self.entries@, key@),
            },
    {
        let n = self.entries.len();
        let mut j: usize = 0;
        while j < n
            invariant
                n == self.entries@.len(),
                0 <= j <= n,
                forall|i: int| 0 <= i < j ==> (#[trigger] self.entries@[i]).0@ != key@,
            decreases n - j,
        {
            if crate::text::str_eq(self.entries[j].0.as_str(), key) {
                return Some(j);
            }
            j = j + 1;
        }
        None
    }

    /// The text stored under `key`, if any.
    pub fn get(&self, key: &str) -> (r: Option<String>)
        ensures
            match r {
                Some(v) => self@.contains_key(key@) && self@[key@] == v@,
                None => !self@.contains_key(key@),
            },
    {
        proof {
            use_type_invariant(self);
        }
        match self.position(key) {
            Some(j) => {
                proof {
                    lemma_entries_map_at(self.entries@, j as int);
                }
                Some(self.entries[j].1.clone())
            },
            None => None,
        }
    }

    /// Stores `value` under `key`, in place of any text stored there before.
    pub fn insert(&mut self, key: String, value: String)
        ensures
            final(self)@ == old(self)@.insert(key@, value@),
    {
        proof {
            use_type_invariant(&*self);
        }
        let ghost old_entries = self.entries@;
        let found = self.position(key.as_str());
        let mut entries: Vec<(String, String)> = Vec::new();
        std::mem::swap(&mut entries, &mut self.entries);
        match found {
            Some(j) => {
                let ghost kv = key@;
                let ghost vv = value@;
                entries.set(j, (key, value));
                proof {
                    let s = entries@;
                    assert(s == old_entries.update(j as int, s[j as int]));
                    assert(distinct_keys(s)) by {
                        assert forall|a: int, b: int|
                            0 <= a < s.len() && 0 <= b < s.len() && a != b implies
                            (#[trigger] s[a]).0@ != (#[trigger] s[b]).0@ by {
                            if a != j && b != j {
                                assert(old_entries[a] == s[a] && old_entries[b] == s[b]);
                            } else if a == j {
                                assert(old_entries[b] == s[b]);
                            } else {
                                assert(old_entries[a] == s[a]);
                            }
                        }
                    }
                    assert forall|k: Seq<char>| has_key(s, k) <==> has_key(old_entries, k) by {
                        if has_key(s, k) {
                            let i = choose|i: int| 0 <= i < s.len() && (#[trigger] s[i]).0@ == k;
                            if i == j {
                                assert(old_entries[j as int].0@ == k);
                            } else {
                                assert(old_entries[i].0@ == k);
                            }
                        }
                        if has_key(old_entries, k) {
                            let i = choose|i: int|
                                0 <= i < old_entries.len() && (#[trigger] old_entries[i]).0@ == k;
                            if i == j {
                                assert(s[j as int].0@ == k);
                            } else {
                                assert(s[i].0@ == k);
                            }
                        }
                    }
                    assert forall|k: Seq<char>| has_key(s, k) implies #[trigger] entries_map(s)[k]
                        == old_entries_map_insert(old_entries, kv, vv)[k] by {
                        let i = choose|i: int| 0 <= i < s.len() && (#[trigger] s[i]).0@ == k;
                        lemma_entries_map_at(s, i);
                        if i != j {
                            assert(old_entries[i] == s[i]);
                            lemma_entries_map_at(old_entries, i);
                        }
                    }
                    assert(entries_map(s) =~= old_entries_map_insert(old_entries, kv, vv));
                }
            },
            None => {
                let ghost kv = key@;
                let ghost vv = value@;
                entries.push((key, value));
                proof {
                    let s = entries@;
                    let last = old_entries.len() as int;
                    assert(s == old_entries.push(s[last]));
                    assert(distinct_keys(s)) by {
                        assert forall|a: int, b: int|
                            0 <= a < s.len() && 0 <= b < s.len() && a != b implies
                            (#[trigger] s[a]).0@ != (#[trigger] s[b]).0@ by {
                            if a != last && b != last {
                                assert(old_entries[a] == s[a] && old_entries[b] == s[b]);
                            } else if a == last {
                                assert(old_entries[b] == s[b]);
                            } else {
                                assert(old_entries[a] == s[a]);
                            }
                        }
                    }
                    assert forall|k: Seq<char>| has_key(s, k) <==> (has_key(old_entries, k) || k
                        == kv) by {
                        if has_key(s, k) {
                            let i = choose|i: int| 0 <= i < s.len() && (#[trigger] s[i]).0@ == k;
                            if i < last {
                                assert(old_entries[i].0@ == k);
                            }
                        }
                        if has_key(old_entries, k) {
                            let i = choose|i: int|
                                0 <= i < old_entries.len() && (#[trigger] old_entries[i]).0@ == k;
                            assert(s[i].0@ == k);
                        }
                        if k == kv {
                            assert(s[last].0@ == k);
                        }
                    }
                    assert forall|k: Seq<char>| has_key(s, k) implies #[trigger] entries_map(s)[k]
                        == old_entries_map_insert(old_entries, kv, vv)[k] by {
                        let i = choose|i: int| 0 <= i < s.len() && (#[trigger] s[i]).0@ == k;
                        lemma_entries_map_at(s, i);
                        if i != last {
                            assert(old_entries[i] == s[i]);
                            lemma_entries_map_at(old_entries, i);
                        }
                    }
                    assert(entries_map(s) =~= old_entries_map_insert(old_entries, kv, vv));
                }
            },
        }
        self.entries = entries;
    }
}

spec fn old_entries_map_insert(s: Seq<(String, String)>, k: Seq<char>, v: Seq<char>) -> Map<
    Seq<char>,
    Seq<char>,
> {
    entries_map(s).insert(k, v)
}


/// The key under which a message is stored for a language: `language.key`.
pub open spec fn qualified(prefix: Seq<char>, key: Seq<char>) -> Seq<char> {
    prefix + "."@ + key
}

/// The placeholder that the argument at `i` fills: `{i}`.
pub open spec fn placeholder(i: nat) -> Seq<char> {
    "{"@ + decimal(i) + "}"@
}

/// `text` with the placeholders of the first `n` arguments filled in, in
/// order: every `{0}` replaced by the first argument, then every `{1}` in the
/// result by the second, and so on.
pub open spec fn fill_args(text: Seq<char>, args: Seq<Seq<char>>, n: nat) -> Seq<char>
    decreases n,
{
    if n == 0 {
        text
    } else {
        replace_all(fill_args(text, args, (n - 1) as nat), placeholder((n - 1) as nat), args[n - 1])
    }
}

/// The message for `key` under `prefix`, with its arguments filled in, or the
/// qualified key itself where the store has no such message.
pub open spec fn message_or_key(
    store: Map<Seq<char>, Seq<char>>,
    prefix: Seq<char>,
    key: Seq<char>,
    args: Seq<Seq<char>>,
) -> Seq<char> {
    let q = qualified(prefix, key);
    if store.contains_key(q) {
        fill_args(store[q], args, args.len())
    } else {
        q
    }
}

/// The language whose messages are used when no accepted language has one.
pub open spec fn fallback_language() -> Seq<char> {
    "id"@
}

/// The message for `key` in the first of `languages` that has one, with its
/// arguments filled in; failing that, the fallback language's message or its
/// qualified key.
pub open spec fn localized(
    store: Map<Seq<char>, Seq<char>>,
    languages: Seq<Seq<char>>,
    key: Seq<char>,
    args: Seq<Seq<char>>,
) -> Seq<char>
    decreases languages.len(),
{
    if languages.len() == 0 {
        message_or_key(store, fallback_language(), key, args)
    } else if store.contains_key(qualified(languages[0], key)) {
        fill_args(store[qualified(languages[0], key)], args, args.len())
    } else {
        localized(store, languages.drop_first(), key, args)
    }
}

/// `prefix.key`.
fn qualify(prefix: &str, key: &str) -> (r: String)
    ensures
        r@ == qualified(prefix@, key@),
{
    let mut r = String::from_str(prefix);
    r.append(".");
    r.append(key);
    r
}

/// `text` with the placeholders `{0}`, `{1}`, ... filled by `args` in order.
pub fn fill_placeholders(text: String, args: &Vec<String>) -> (r: String)
    ensures
        r@ == fill_args(text@, strings_view(args@), args@.len()),
{
    proof {
        reveal_strlit("{");
        reveal_strlit("}");
    }
    let ghost av = strings_view(args@);
    let n = args.len();
    let mut result = text;
    let mut i: usize = 0;
    while i < n
        invariant
            n == args@.len(),
            av == strings_view(args@),
            0 <= i <= n,
            result@ == fill_args(text@, av, i as nat),
        decreases n - i,
    {
        let mut pat = String::from_str("{");
        let digits = usize_to_decimal(i);
        pat.append(digits.as_str());
        pat.append("}");
        assert(pat@ == placeholder(i as nat));
        assert(av[i as int] == args@[i as int]@);
        result = replace_str(result.as_str(), pat.as_str(), args[i].as_str());
        i = i + 1;
    }
    result
}

impl MessageStore {
    /// The message for `key` under `prefix` with its placeholders filled, or
    /// `prefix.key` itself where there is none.
    pub fn get_message_default(&self, prefix: &str, key: &str, args: &Vec<String>) -> (r: String)
        ensures
            r@ == message_or_key(self@, prefix@, key@, strings_view(args@)),
    {
        let q = qualify(prefix, key);
        match self.get(q.as_str()) {
            Some(text) => fill_placeholders(text, args),
            None => q,
        }
    }

    /// The message for `key` in the first of `languages` that has one, with
    /// `args` filled into its placeholders; failing that, the message of the
    /// fallback language `id`, or `id.key` where that is missing too.
    pub fn get_message(&self, languages: &Vec<String>, key: &str, args: &Vec<String>) -> (r: String)
        ensures
            r@ == localized(self@, strings_view(languages@), key@, strings_view(args@)),
    {
        let ghost lv = strings_view(languages@);
        let n = languages.len();
        let mut i: usize = 0;
        proof {
            assert(lv.skip(0) =~= lv);
        }
        while i < n
            invariant
                n == languages@.len(),
                lv == strings_view(languages@),
                0 <= i <= n,
                localized(self@, lv.skip(i as int), key@, strings_view(args@)) == localized(
                    self@,
                    lv,
                    key@,
                    strings_view(args@),
                ),
            decreases n - i,
        {
            let q = qualify(languages[i].as_str(), key);
            proof {
                assert(lv.skip(i as int)[0] == languages@[i as int]@);
                assert(lv.skip(i as int).drop_first() =~= lv.skip(i + 1));
            }
            match self.get(q.as_str()) {
                Some(text) => {
                    return fill_placeholders(text, args);
                },
                None => {},
            }
            i = i + 1;
        }
        proof {
            reveal_strlit("id");
            assert(lv.skip(n as int) =~= Seq::<Seq<char>>::empty());
        }
        self.get_message_default("id", key, args)
    }
}


/// The language of a messages file, given its name: for a name of the form
/// `messages_*.properties`, the part before the first `.` with every
/// `messages_` taken out; no language for any other name.
pub open spec fn file_language(name: Seq<char>) -> Option<Seq<char>> {
    if starts_with(name, "messages_"@) && ends_with(name, ".properties"@) {
        Some(replace_all(split_once(name, '.').unwrap().0, "messages_"@, Seq::empty()))
    } else {
        None
    }
}

/// What a line of a properties file holds: nothing for an empty line or a
/// comment, else the key before the first `=` and the text after it.
pub open spec fn property_entry(line: Seq<char>) -> Option<(Seq<char>, Seq<char>)> {
    if line.len() == 0 || starts_with(line, "#"@) {
        None
    } else {
        split_once(line, '=')
    }
}

/// Whether a line of a properties file can be read: it is empty, a comment, or
/// holds an `=`.
pub open spec fn readable_line(line: Seq<char>) -> bool {
    line.len() == 0 || starts_with(line, "#"@) || split_once(line, '=') is Some
}

/// The store after the lines of the file of language `prefix` are read in
/// order, each entry stored under `prefix.key`.
pub open spec fn load_lines(
    store: Map<Seq<char>, Seq<char>>,
    prefix: Seq<char>,
    lines: Seq<Seq<char>>,
) -> Map<Seq<char>, Seq<char>>
    decreases lines.len(),
{
    if lines.len() == 0 {
        store
    } else {
        let before = load_lines(store, prefix, lines.drop_last());
        match property_entry(lines.last()) {
            Some((k, v)) => before.insert(qualified(prefix, k), v),
            None => before,
        }
    }
}

/// The language of a messages file, given its name (see `file_language`).
pub fn message_file_language(file_name: &str) -> (r: Option<String>)
    ensures
        match r {
            Some(l) => file_language(file_name@) == Some(l@),
            None => file_language(file_name@) is None,
        },
{
    proof {
        reveal_strlit("messages_");
        reveal_strlit(".properties");
        reveal_strlit("");
    }
    if str_starts_with(file_name, "messages_") && str_ends_with(file_name, ".properties") {
        let i = find_char(file_name, '.');
        proof {
            lemma_index_of_bounds(file_name@, '.');
            let n = file_name@.len();
            assert(file_name@.skip(n - 11)[0] == ".properties"@[0]);
            assert(file_name@[n - 11] == '.');
        }
        let first = file_name.substring_char(0, i);
        proof {
            assert(first@ =~= file_name@.take(i as int));
            assert(""@ =~= Seq::<char>::empty());
        }
        Some(replace_str(first, "messages_", ""))
    } else {
        None
    }
}

/// What a line of a properties file holds (see `property_entry`).
pub fn parse_property_line(line: &str) -> (r: Option<(String, String)>)
    requires
        readable_line(line@),
    ensures
        match r {
            Some((k, v)) => property_entry(line@) == Some((k@, v@)),
            None => property_entry(line@) is None,
        },
{
    proof {
        reveal_strlit("#");
    }
    if line.is_empty() || str_starts_with(line, "#") {
        return None;
    }
    let i = find_char(line, '=');
    let n = line.unicode_len();
    let key = line.substring_char(0, i);
    let value = line.substring_char(i + 1, n);
    proof {
        assert(key@ =~= line@.take(i as int));
        assert(value@ =~= line@.skip(i + 1));
    }
    Some((String::from_str(key), String::from_str(value)))
}

impl MessageStore {
    /// Reads the lines of the messages file of language `prefix` in order,
    /// storing each entry under `prefix.key` in place of what was there.
    pub fn load_properties(&mut self, prefix: &str, lines: &Vec<String>)
        requires
            forall|i: int| 0 <= i < lines@.len() ==> readable_line(#[trigger] lines@[i]@),
        ensures
            final(self)@ == load_lines(old(self)@, prefix@, strings_view(lines@)),
    {
        let ghost lv = strings_view(lines@);
        let n = lines.len();
        let mut i: usize = 0;
        proof {
            assert(lv.take(0) =~= Seq::<Seq<char>>::empty());
        }
        while i < n
            invariant
                n == lines@.len(),
                lv == strings_view(lines@),
                forall|i: int| 0 <= i < lines@.len() ==> readable_line(#[trigger] lines@[i]@),
                0 <= i <= n,
                self@ == load_lines(old(self)@, prefix@, lv.take(i as int)),
            decreases n - i,
        {
            proof {
                assert(lv.take(i + 1).drop_last() =~= lv.take(i as int));
                assert(lv.take(i + 1).last() == lines@[i as int]@);
            }
            match parse_property_line(lines[i].as_str()) {
                Some((k, v)) => {
                    let q = qualify(prefix, k.as_str());
                    self.insert(q, v);
                },
                None => {},
            }
            i = i + 1;
        }
        proof {
            assert(lv.take(n as int) =~= lv);
        }
    }
}


/// A read gives back what the last write under its key stored, and a write
/// leaves every other key as it was (stated over the store's contents, which
/// `insert` and `get` are specified by).
pub proof fn law_read_after_write(
    before: Map<Seq<char>, Seq<char>>,
    key: Seq<char>,
    value: Seq<char>,
    other: Seq<char>,
)
    requires
        other != key,
    ensures
        before.insert(key, value).contains_key(key),
        before.insert(key, value)[key] == value,
        before.insert(key, value).contains_key(other) == before.contains_key(other),
        before.contains_key(other) ==> before.insert(key, value)[other] == before[other],
{
}

/// Where no accepted language and not the fallback language has a message for
/// `key`, the lookup answers with `id.key` itself.
pub proof fn law_message_fallback(
    store: Map<Seq<char>, Seq<char>>,
    languages: Seq<Seq<char>>,
    key: Seq<char>,
    args: Seq<Seq<char>>,
)
    requires
        forall|i: int| 0 <= i < languages.len() ==> !store.contains_key(
            #[trigger] qualified(languages[i], key),
        ),
        !store.contains_key(qualified(fallback_language(), key)),
    ensures
        localized(store, languages, key, args) == qualified(fallback_language(), key),
    decreases languages.len(),
{
    if languages.len() > 0 {
        assert(!store.contains_key(qualified(languages[0], key)));
        assert forall|i: int| 0 <= i < languages.drop_first().len() implies !store.contains_key(
            #[trigger] qualified(languages.drop_first()[i], key),
        ) by {
            assert(languages.drop_first()[i] == languages[i + 1]);
        }
        law_message_fallback(store, languages.drop_first(), key, args);
    }
}

/// The message comes from the first accepted language that has one, with the
/// arguments filled in.
pub proof fn law_first_language_wins(
    store: Map<Seq<char>, Seq<char>>,
    languages: Seq<Seq<char>>,
    key: Seq<char>,
    args: Seq<Seq<char>>,
    i: int,
)
    requires
        0 <= i < languages.len(),
        store.contains_key(qualified(languages[i], key)),
        forall|j: int| 0 <= j < i ==> !store.contains_key(#[trigger] qualified(languages[j], key)),
    ensures
        localized(store, languages, key, args) == fill_args(
            store[qualified(languages[i], key)],
            args,
            args.len(),
        ),
    decreases i,
{
    if i > 0 {
        assert(!store.contains_key(qualified(languages[0], key)));
        assert forall|j: int| 0 <= j < i - 1 implies !store.contains_key(
            #[trigger] qualified(languages.drop_first()[j], key),
        ) by {
            assert(languages.drop_first()[j] == languages[j + 1]);
        }
        assert(languages.drop_first()[i - 1] == languages[i]);
        law_first_language_wins(store, languages.drop_first(), key, args, i - 1);
    }
}

/// Reading a line stores its entry under `prefix.key`, in place of what was
/// there; an empty line or a comment changes nothing.
pub proof fn law_load_line(
    store: Map<Seq<char>, Seq<char>>,
    prefix: Seq<char>,
    lines: Seq<Seq<char>>,
    line: Seq<char>,
)
    ensures
        property_entry(line) matches Some((k, v)) ==> load_lines(store, prefix, lines.push(line))
            == load_lines(store, prefix, lines).insert(qualified(prefix, k), v),
        property_entry(line) is None ==> load_lines(store, prefix, lines.push(line)) == load_lines(
            store,
            prefix,
            lines,
        ),
{
    assert(lines.push(line).drop_last() =~= lines);
}

} // verus!

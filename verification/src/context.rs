//! What a request carries through its handling: the languages it accepts and
//! the user it acts for; and how the languages are read from the
//! `Accept-Language` header.

use vstd::prelude::*;
use vstd::string::*;
use crate::text::{lemma_split_nonempty, split, split_str, str_eq, trim, trim_str};

verus! {

/// The characters of each string, in order.
pub open spec fn strings_view(v: Seq<String>) -> Seq<Seq<char>> {
    v.map_values(|s: String| s@)
}

/// The request context: the accepted languages, most preferred first (as
/// `from_accept_language` lists them, each once), and the id of the acting
/// user.
#[derive(Clone, Debug)]
pub struct CtxApp {
    pub accept_languages: Vec<String>,
    pub user_id: String,
}

/// The language tag of one entry of the header (the text before any `;`,
/// trimmed), followed by its primary subtag (the text before any `-`).
pub open spec fn entry_keys(entry: Seq<char>) -> Seq<Seq<char>> {
    let lang = trim(split(trim(entry), ';')[0]);
    seq![lang, trim(split(lang, '-')[0])]
}

/// The keys of the entries, in order, with repetitions.
pub open spec fn entries_keys(entries: Seq<Seq<char>>) -> Seq<Seq<char>>
    decreases entries.len(),
{
    if entries.len() == 0 {
        Seq::empty()
    } else {
        entries_keys(entries.drop_last()) + entry_keys(entries.last())
    }
}

/// `s` without repetitions: each element where it first occurs.
pub open spec fn distinct(s: Seq<Seq<char>>) -> Seq<Seq<char>>
    decreases s.len(),
{
    if s.len() == 0 {
        Seq::empty()
    } else {
        let d = distinct(s.drop_last());
        if d.contains(s.last()) {
            d
        } else {
            d.push(s.last())
        }
    }
}

/// The language used when a request names none.
pub open spec fn default_language() -> Seq<char> {
    "id"@
}

/// The languages a request accepts, given the text of its `Accept-Language`
/// header where it has a readable one: the keys of the comma-separated entries
/// without repetitions, or the default language where that leaves none.
pub open spec fn accepted_languages(header: Option<Seq<char>>) -> Seq<Seq<char>> {
    let keys = match header {
        Some(h) => distinct(entries_keys(split(trim(h), ','))),
        None => Seq::empty(),
    };
    if keys.len() == 0 {
        seq![default_language()]
    } else {
        keys
    }
}

pub proof fn lemma_distinct(s: Seq<Seq<char>>)
    ensures
        distinct(s).no_duplicates(),
        forall|x: Seq<char>| distinct(s).contains(x) <==> s.contains(x),
        s.len() > 0 ==> distinct(s).len() > 0,
    decreases s.len(),
{
    if s.len() > 0 {
        let t = s.drop_last();
        lemma_distinct(t);
        assert(s =~= t.push(s.last()));
        assert forall|x: Seq<char>| s.contains(x) <==> (t.contains(x) || x == s.last()) by {
            if s.contains(x) {
                let k = choose|k: int| 0 <= k < s.len() && s[k] == x;
                if k < s.len() - 1 {
                    assert(t[k] == x);
                }
            }
            if t.contains(x) {
                let k = choose|k: int| 0 <= k < t.len() && t[k] == x;
                assert(s[k] == x);
            }
            if x == s.last() {
                assert(s[s.len() - 1] == x);
            }
        }
        if !distinct(t).contains(s.last()) {
            let d = distinct(t).push(s.last());
            assert forall|x: Seq<char>| d.contains(x) <==> (distinct(t).contains(x) || x
                == s.last()) by {
                if d.contains(x) {
                    let k = choose|k: int| 0 <= k < d.len() && d[k] == x;
                    if k < d.len() - 1 {
                        assert(distinct(t)[k] == x);
                    }
                }
                if distinct(t).contains(x) {
                    let k = choose|k: int| 0 <= k < distinct(t).len() && distinct(t)[k] == x;
                    assert(d[k] == x);
                }
                if x == s.last() {
                    assert(d[d.len() - 1] == x);
                }
            }
        }
        if !distinct(t).contains(s.last()) {
            let d = distinct(t).push(s.last());
            assert forall|i: int, j: int| 0 <= i < j < d.len() implies d[i] != d[j] by {
                if j == d.len() - 1 {
                    assert(distinct(t)[i] == d[i]);
                }
            }
        }
    }
}

/// Appends `x` to `v` unless it is already there.
fn push_distinct(v: &mut Vec<String>, x: String)
    ensures
        strings_view(final(v)@) == if strings_view(old(v)@).contains(x@) {
            strings_view(old(v)@)
        } else {
            strings_view(old(v)@).push(x@)
        },
{
    let mut k: usize = 0;
    let n = v.len();
    while k < n
        invariant
            n == v.len(),
            v@ == old(v)@,
            0 <= k <= n,
            forall|j: int| 0 <= j < k ==> #[trigger] strings_view(v@)[j] != x@,
        decreases n - k,
    {
        if str_eq(v[k].as_str(), x.as_str()) {
            assert(strings_view(v@)[k as int] == x@);
            return;
        }
        k = k + 1;
    }
    let ghost before = strings_view(v@);
    v.push(x);
    assert(strings_view(v@) =~= before.push(x@));
}

/// The keys of one header entry.
fn entry_key_strings(entry: &str) -> (r: (String, String))
    ensures
        seq![r.0@, r.1@] == entry_keys(entry@),
{
    let t = trim_str(entry);
    let pieces = split_str(t.as_str(), ';');
    proof {
        lemma_split_nonempty(t@, ';');
        assert(strings_view(pieces@)[0] == pieces@[0]@);
    }
    let lang = trim_str(pieces[0].as_str());
    let subtags = split_str(lang.as_str(), '-');
    proof {
        lemma_split_nonempty(lang@, '-');
        assert(strings_view(subtags@)[0] == subtags@[0]@);
    }
    let base = trim_str(subtags[0].as_str());
    (lang, base)
}

impl CtxApp {
    /// The context of a request that has not been authorized yet, given the text
    /// of its `Accept-Language` header where it has a readable one: the user is
    /// `Anonymous` and the languages are those the header names (see
    /// `accepted_languages`).
    pub fn from_accept_language(header: Option<&str>) -> (r: CtxApp)
        ensures
            r.user_id@ == "Anonymous"@,
            strings_view(r.accept_languages@) == accepted_languages(
                match header {
                    Some(h) => Some(h@),
                    None => None,
                },
            ),
    {
        let mut keys: Vec<String> = Vec::new();
        let ghost hv: Option<Seq<char>> = match header {
            Some(h) => Some(h@),
            None => None,
        };
        match header {
            Some(h) => {
                let t = trim_str(h);
                let entries = split_str(t.as_str(), ',');
                let ghost ev = strings_view(entries@);
                let n = entries.len();
                let mut i: usize = 0;
                while i < n
                    invariant
                        n == entries.len(),
                        ev == strings_view(entries@),
                        0 <= i <= n,
                        strings_view(keys@) == distinct(entries_keys(ev.take(i as int))),
                    decreases n - i,
                {
                    let (lang, base) = entry_key_strings(entries[i].as_str());
                    let ghost prefix = entries_keys(ev.take(i as int));
                    proof {
                        assert(ev.take(i + 1).drop_last() =~= ev.take(i as int));
                        assert(ev.take(i + 1).last() == entries@[i as int]@);
                        assert(entries_keys(ev.take(i + 1)) == prefix + entry_keys(
                            entries@[i as int]@,
                        ));
                        assert(prefix + seq![lang@, base@] =~= prefix.push(lang@).push(base@));
                        assert(prefix.push(lang@).push(base@).drop_last() =~= prefix.push(lang@));
                        assert(prefix.push(lang@).drop_last() =~= prefix);
                        let p1 = prefix.push(lang@);
                        let p2 = p1.push(base@);
                        assert(distinct(p1) == (if distinct(prefix).contains(lang@) {
                            distinct(prefix)
                        } else {
                            distinct(prefix).push(lang@)
                        }));
                        assert(distinct(p2) == (if distinct(p1).contains(base@) {
                            distinct(p1)
                        } else {
                            distinct(p1).push(base@)
                        }));
                    }
                    push_distinct(&mut keys, lang);
                    push_distinct(&mut keys, base);
                    i = i + 1;
                }
                proof {
                    assert(ev.take(n as int) =~= ev);
                }
            },
            None => {},
        }
        if keys.len() == 0 {
            keys.push(String::from_str("id"));
            proof {
                reveal_strlit("id");
                assert(strings_view(keys@) =~= seq![default_language()]);
            }
        }
        CtxApp { accept_languages: keys, user_id: String::from_str("Anonymous") }
    }
}


/// A request always accepts at least one language and names none twice; with
/// no readable header it accepts the default language alone; with one, it
/// accepts exactly the keys of the header's entries, or the default language
/// where there are none.
pub proof fn law_accepted_languages(header: Option<Seq<char>>)
    ensures
        accepted_languages(header).len() >= 1,
        accepted_languages(header).no_duplicates(),
        header is None ==> accepted_languages(header) == seq![default_language()],
        header matches Some(h) ==> {
            let keys = entries_keys(split(trim(h), ','));
            ||| (keys.len() == 0 && accepted_languages(header) == seq![default_language()])
            ||| (keys.len() > 0 && forall|x: Seq<char>|
                accepted_languages(header).contains(x) <==> keys.contains(x))
        },
{
    match header {
        Some(h) => {
            lemma_distinct(entries_keys(split(trim(h), ',')));
        },
        None => {},
    }
}

} // verus!

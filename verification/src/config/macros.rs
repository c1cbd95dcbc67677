use vstd::prelude::*;

use crate::config::{config_dir, config_dir_of, join_path, joined, macro_file_name, sanitized};
use crate::text::{chars_of, string_push};

verus! {

/// The directory that holds the saved macros, below the configuration
/// directory; `None` when `APPDATA` is not set.
pub fn macros_dir(appdata: Option<&str>) -> (r: Option<String>)
    ensures
        r is Some <==> appdata is Some,
        r is Some ==> r->0@ == joined(config_dir_of(appdata->0@), "macros"@),
{
    match config_dir(appdata) {
        None => None,
        Some(d) => Some(join_path(d.as_str(), "macros")),
    }
}

/// The file a macro of the given name is saved to: its sanitized name with
/// `.json`, inside the macros directory.
pub fn macro_path(appdata: Option<&str>, name: &str) -> (r: Option<String>)
    ensures
        r is Some <==> appdata is Some,
        r is Some ==> r->0@ == joined(
            joined(config_dir_of(appdata->0@), "macros"@),
            sanitized(name@) + ".json"@,
        ),
{
    match macros_dir(appdata) {
        None => None,
        Some(d) => {
            let file = macro_file_name(name);
            Some(join_path(d.as_str(), file.as_str()))
        },
    }
}

/// Index of the last `.` in `s`, or -1 when there is none.
pub open spec fn last_dot(s: Seq<char>) -> int
    decreases s.len(),
{
    if s.len() == 0 {
        -1
    } else if s.last() == '.' {
        s.len() - 1
    } else {
        last_dot(s.drop_last())
    }
}

/// The stem of a file name with the extension `json`, as paths split them:
/// the extension follows the last `.`, and a name whose only `.` comes first
/// has none.
pub open spec fn json_stem(name: Seq<char>) -> Option<Seq<char>> {
    let k = last_dot(name);
    if k > 0 && name.subrange(k + 1, name.len() as int) == "json"@ {
        Some(name.subrange(0, k))
    } else {
        None
    }
}

/// The stems of the `.json` names among `names`, in order.
pub open spec fn json_stems(names: Seq<Seq<char>>) -> Seq<Seq<char>>
    decreases names.len(),
{
    if names.len() == 0 {
        seq![]
    } else {
        match json_stem(names.last()) {
            Some(stem) => json_stems(names.drop_last()).push(stem),
            None => json_stems(names.drop_last()),
        }
    }
}

/// Lexicographic order of texts by code point, a prefix first (the order of
/// `String`).
pub open spec fn lex_le(a: Seq<char>, b: Seq<char>) -> bool
    decreases a.len(),
{
    if a.len() == 0 {
        true
    } else if b.len() == 0 {
        false
    } else if (a[0] as u32) < (b[0] as u32) {
        true
    } else if (a[0] as u32) > (b[0] as u32) {
        false
    } else {
        lex_le(a.drop_first(), b.drop_first())
    }
}

/// Texts in lexicographic order.
pub open spec fn lex_sorted(s: Seq<Seq<char>>) -> bool {
    forall|i: int, j: int| 0 <= i < j < s.len() ==> lex_le(s[i], s[j])
}

/// The texts of strings.
pub open spec fn texts(v: Seq<String>) -> Seq<Seq<char>> {
    v.map_values(|s: String| s@)
}

proof fn lemma_lex_total(a: Seq<char>, b: Seq<char>)
    ensures
        lex_le(a, b) || lex_le(b, a),
    decreases a.len(),
{
    if a.len() > 0 && b.len() > 0 && (a[0] as u32) == (b[0] as u32) {
        lemma_lex_total(a.drop_first(), b.drop_first());
    }
}

proof fn lemma_lex_trans(a: Seq<char>, b: Seq<char>, c: Seq<char>)
    requires
        lex_le(a, b),
        lex_le(b, c),
    ensures
        lex_le(a, c),
    decreases a.len(),
{
    if a.len() > 0 && b.len() > 0 && c.len() > 0 && (a[0] as u32) == (b[0] as u32) && (b[0] as u32)
        == (c[0] as u32) {
        lemma_lex_trans(a.drop_first(), b.drop_first(), c.drop_first());
    }
}

fn lex_le_exec(a: &Vec<char>, b: &Vec<char>) -> (r: bool)
    ensures
        r == lex_le(a@, b@),
{
    let mut i: usize = 0;
    assert(a@.subrange(0, a.len() as int) =~= a@);
    assert(b@.subrange(0, b.len() as int) =~= b@);
    while i < a.len() && i < b.len() && (a[i] as u32) == (b[i] as u32)
        invariant
            i <= a.len(),
            i <= b.len(),
            lex_le(a@, b@) == lex_le(a@.subrange(i as int, a.len() as int), b@.subrange(i as int, b.len() as int)),
        decreases a.len() - i,
    {
        assert(a@.subrange(i as int, a.len() as int).drop_first() =~= a@.subrange(i + 1, a.len() as int));
        assert(b@.subrange(i as int, b.len() as int).drop_first() =~= b@.subrange(i + 1, b.len() as int));
        i += 1;
    }
    let ghost sa = a@.subrange(i as int, a.len() as int);
    let ghost sb = b@.subrange(i as int, b.len() as int);
    if i == a.len() {
        assert(sa.len() == 0);
        true
    } else if i == b.len() {
        assert(sa.len() > 0 && sb.len() == 0);
        false
    } else {
        assert(sa[0] == a@[i as int] && sb[0] == b@[i as int]);
        (a[i] as u32) < (b[i] as u32)
    }
}

fn last_dot_exec(cs: &Vec<char>) -> (k: Option<usize>)
    ensures
        k is None ==> last_dot(cs@) == -1,
        k is Some ==> last_dot(cs@) == k->0 && k->0 < cs.len(),
{
    let mut n: usize = cs.len();
    assert(cs@.take(cs.len() as int) =~= cs@);
    while n > 0
        invariant
            n <= cs.len(),
            last_dot(cs@) == last_dot(cs@.take(n as int)),
        decreases n,
    {
        assert(cs@.take(n as int).drop_last() =~= cs@.take(n - 1));
        if cs[n - 1] == '.' {
            return Some(n - 1);
        }
        n -= 1;
    }
    None
}

/// The stem of a `.json` file name (see `json_stem`).
pub fn json_stem_of(name: &str) -> (r: Option<String>)
    ensures
        r is None <==> json_stem(name@) is None,
        r is Some ==> r->0@ == json_stem(name@)->0,
{
    let cs = chars_of(name);
    assert(cs@.take(cs.len() as int) =~= cs@);
    let k = match last_dot_exec(&cs) {
        None => {
            return None;
        },
        Some(k) => k,
    };
    if k == 0 || cs.len() - k != 5 || cs[k + 1] != 'j' || cs[k + 2] != 's' || cs[k + 3] != 'o'
        || cs[k + 4] != 'n' {
        proof {
            reveal_strlit("json");
            let sub = cs@.subrange(k + 1, cs.len() as int);
            if k > 0 && sub == "json"@ {
                assert(sub.len() == 4);
                assert(sub[0] == 'j' && sub[1] == 's' && sub[2] == 'o' && sub[3] == 'n');
                assert(cs@[k + 1] == 'j' && cs@[k + 2] == 's' && cs@[k + 3] == 'o' && cs@[k + 4]
                    == 'n');
                assert(false);
            }
        }
        return None;
    }
    proof {
        reveal_strlit("json");
        assert(cs@.subrange(k + 1, cs.len() as int) =~= "json"@);
    }
    let mut stem = String::new();
    let mut i: usize = 0;
    while i < k
        invariant
            i <= k,
            k < cs.len(),
            stem@ == cs@.subrange(0, i as int),
        decreases k - i,
    {
        string_push(&mut stem, cs[i]);
        assert(stem@ =~= cs@.subrange(0, i + 1));
        i += 1;
    }
    Some(stem)
}

/// The names of the saved macros, given the names of the files in the macros
/// directory: the stems of the `.json` files, in lexicographic order.
pub fn list_macros(file_names: &Vec<String>) -> (r: Vec<String>)
    ensures
        lex_sorted(texts(r@)),
        texts(r@).to_multiset() == json_stems(texts(file_names@)).to_multiset(),
{
    broadcast use vstd::seq_lib::to_multiset_build, vstd::seq_lib::to_multiset_insert;

    let mut r: Vec<String> = Vec::new();
    let mut i: usize = 0;
    assert(texts(r@) =~= Seq::<Seq<char>>::empty());
    assert(texts(file_names@).take(0) =~= Seq::<Seq<char>>::empty());
    while i < file_names.len()
        invariant
            i <= file_names.len(),
            lex_sorted(texts(r@)),
            texts(r@).to_multiset() == json_stems(texts(file_names@).take(i as int)).to_multiset(),
        decreases file_names.len() - i,
    {
        assert(texts(file_names@).take(i + 1).drop_last() =~= texts(file_names@).take(i as int));
        assert(texts(file_names@).take(i + 1).last() == file_names@[i as int]@);
        let ghost before = json_stems(texts(file_names@).take(i as int));
        match json_stem_of(file_names[i].as_str()) {
            None => {
                assert(json_stems(texts(file_names@).take(i + 1)) == before);
            },
            Some(stem) => {
                let stem_chars = chars_of(stem.as_str());
                let mut p: usize = 0;
                while p < r.len() && lex_le_exec(&chars_of(r[p].as_str()), &stem_chars)
                    invariant
                        p <= r.len(),
                        stem_chars@ == stem@,
                        lex_sorted(texts(r@)),
                        forall|q: int| 0 <= q < p ==> lex_le(#[trigger] texts(r@)[q], stem@),
                    decreases r.len() - p,
                {
                    p += 1;
                }
                let ghost old_t = texts(r@);
                proof {
                    if p < r.len() {
                        lemma_lex_total(old_t[p as int], stem@);
                    }
                }
                let ghost sv = stem@;
                r.insert(p, stem);
                proof {
                    let t = texts(r@);
                    assert(t =~= old_t.insert(p as int, sv));
                    assert(json_stems(texts(file_names@).take(i + 1)) == before.push(sv));
                    vstd::seq_lib::to_multiset_insert(old_t, p as int, sv);
                    vstd::seq_lib::to_multiset_build(before, sv);
                    assert forall|a: int, b: int| 0 <= a < b < t.len() implies lex_le(t[a], t[b]) by {
                        if b < p {
                        } else if a < p && b == p {
                        } else if a < p && b > p {
                            lemma_lex_trans(t[a], t[p as int], old_t[p as int]);
                            if b - 1 > p {
                                lemma_lex_trans(t[a], old_t[p as int], old_t[b - 1]);
                            }
                        } else if a == p {
                            if b - 1 > p {
                                lemma_lex_trans(t[a], old_t[p as int], old_t[b - 1]);
                            }
                        } else {
                        }
                    }
                }
            },
        }
        i += 1;
    }
    assert(texts(file_names@).take(file_names.len() as int) =~= texts(file_names@));
    r
}

proof fn lemma_last_dot_json(s: Seq<char>)
    ensures
        last_dot(s + ".json"@) == s.len(),
{
    reveal_strlit(".json");
    let u1 = s + seq!['.'];
    let u2 = s + seq!['.', 'j'];
    let u3 = s + seq!['.', 'j', 's'];
    let u4 = s + seq!['.', 'j', 's', 'o'];
    let u5 = s + seq!['.', 'j', 's', 'o', 'n'];
    assert(u1.last() == '.');
    assert(last_dot(u1) == s.len());
    assert(u2.drop_last() =~= u1 && u2.last() == 'j');
    assert(last_dot(u2) == s.len());
    assert(u3.drop_last() =~= u2 && u3.last() == 's');
    assert(last_dot(u3) == s.len());
    assert(u4.drop_last() =~= u3 && u4.last() == 'o');
    assert(last_dot(u4) == s.len());
    assert(u5.drop_last() =~= u4 && u5.last() == 'n');
    assert(last_dot(u5) == s.len());
    assert(s + ".json"@ =~= u5);
}

proof fn lemma_json_stems_contains(names: Seq<Seq<char>>, i: int)
    requires
        0 <= i < names.len(),
        json_stem(names[i]) is Some,
    ensures
        json_stems(names).contains(json_stem(names[i])->0),
    decreases names.len(),
{
    let x = json_stem(names[i])->0;
    if i == names.len() - 1 {
        let r = json_stems(names.drop_last()).push(x);
        assert(r[r.len() - 1] == x);
    } else {
        assert(names.drop_last()[i] == names[i]);
        lemma_json_stems_contains(names.drop_last(), i);
        let r = json_stems(names.drop_last());
        let j = choose|j: int| 0 <= j < r.len() && r[j] == x;
        match json_stem(names.last()) {
            Some(stem) => {
                assert(r.push(stem)[j] == x);
            },
            None => {},
        }
    }
}

/// A macro saved under a name whose sanitized form is not empty is listed
/// again under that sanitized name: its file's stem is the name, so it is
/// among the stems of the directory's files.
pub proof fn lemma_saved_macro_is_listed(name: Seq<char>, file_names: Seq<Seq<char>>)
    requires
        sanitized(name).len() > 0,
        file_names.contains(sanitized(name) + ".json"@),
    ensures
        json_stem(sanitized(name) + ".json"@) == Some(sanitized(name)),
        json_stems(file_names).contains(sanitized(name)),
{
    let s = sanitized(name);
    let f = s + ".json"@;
    lemma_last_dot_json(s);
    reveal_strlit(".json");
    reveal_strlit("json");
    assert(f.subrange(s.len() + 1int, f.len() as int) =~= "json"@);
    assert(f.subrange(0, s.len() as int) =~= s);
    let i = choose|i: int| 0 <= i < file_names.len() && file_names[i] == f;
    lemma_json_stems_contains(file_names, i);
}

} // verus!

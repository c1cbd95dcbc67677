pub mod macros;
pub mod settings;

use vstd::prelude::*;

use crate::text::{chars_of, string_push};

verus! {

/// Characters that Windows forbids in file names.
pub open spec fn is_forbidden_in_name(c: char) -> bool {
    c == '<' || c == '>' || c == ':' || c == '"' || c == '/' || c == '\\' || c == '|' || c == '?'
        || c == '*'
}

/// `char::is_control`: the Unicode general category Cc, U+0000–U+001F and
/// U+007F–U+009F.
pub open spec fn is_control_char(c: char) -> bool {
    (c as u32) <= 0x1F || (0x7F <= (c as u32) && (c as u32) <= 0x9F)
}

/// `char::is_whitespace`: the Unicode `White_Space` property.
pub open spec fn is_white_space(c: char) -> bool {
    let u = c as u32;
    (0x09 <= u && u <= 0x0D) || u == 0x20 || u == 0x85 || u == 0xA0 || u == 0x1680 || (0x2000 <= u
        && u <= 0x200A) || u == 0x2028 || u == 0x2029 || u == 0x202F || u == 0x205F || u == 0x3000
}

/// A forbidden or control character becomes `_`; others stay.
pub open spec fn cleaned_char(c: char) -> char {
    if is_forbidden_in_name(c) || is_control_char(c) {
        '_'
    } else {
        c
    }
}

/// `s` without its leading whitespace.
pub open spec fn trim_start(s: Seq<char>) -> Seq<char>
    decreases s.len(),
{
    if s.len() > 0 && is_white_space(s[0]) {
        trim_start(s.drop_first())
    } else {
        s
    }
}

/// `s` without its trailing whitespace.
pub open spec fn trim_end(s: Seq<char>) -> Seq<char>
    decreases s.len(),
{
    if s.len() > 0 && is_white_space(s.last()) {
        trim_end(s.drop_last())
    } else {
        s
    }
}

/// A name made safe for a file name: every forbidden or control character
/// replaced by `_`, then leading and trailing whitespace removed.
pub open spec fn sanitized(name: Seq<char>) -> Seq<char> {
    trim_end(trim_start(name.map_values(|c: char| cleaned_char(c))))
}

fn is_control(c: char) -> (r: bool)
    ensures
        r == is_control_char(c),
{
    let u = c as u32;
    u <= 0x1F || (0x7F <= u && u <= 0x9F)
}

fn is_whitespace(c: char) -> (r: bool)
    ensures
        r == is_white_space(c),
{
    let u = c as u32;
    (0x09 <= u && u <= 0x0D) || u == 0x20 || u == 0x85 || u == 0xA0 || u == 0x1680 || (0x2000 <= u
        && u <= 0x200A) || u == 0x2028 || u == 0x2029 || u == 0x202F || u == 0x205F || u == 0x3000
}

proof fn lemma_trim_start_skip(s: Seq<char>, i: int)
    requires
        0 <= i <= s.len(),
        forall|j: int| 0 <= j < i ==> is_white_space(s[j]),
    ensures
        trim_start(s) == trim_start(s.subrange(i, s.len() as int)),
    decreases i,
{
    if i > 0 {
        assert(s.drop_first().subrange(i - 1, s.drop_first().len() as int) =~= s.subrange(
            i,
            s.len() as int,
        ));
        lemma_trim_start_skip(s.drop_first(), i - 1);
    } else {
        assert(s.subrange(0, s.len() as int) =~= s);
    }
}

proof fn lemma_trim_end_cut(s: Seq<char>, k: int)
    requires
        0 <= k <= s.len(),
        forall|j: int| k <= j < s.len() ==> is_white_space(s[j]),
    ensures
        trim_end(s) == trim_end(s.subrange(0, k)),
    decreases s.len() - k,
{
    if k < s.len() {
        assert(s.drop_last().subrange(0, k) =~= s.subrange(0, k));
        lemma_trim_end_cut(s.drop_last(), k);
    } else {
        assert(s.subrange(0, s.len() as int) =~= s);
    }
}

/// Strips the characters that Windows forbids in file names and any control
/// characters (see `sanitized`).
pub fn sanitize_name(name: &str) -> (r: String)
    ensures
        r@ == sanitized(name@),
{
    let chars = chars_of(name);
    let ghost mapped = name@.map_values(|c: char| cleaned_char(c));
    let mut cleaned: Vec<char> = Vec::new();
    let mut i: usize = 0;
    while i < chars.len()
        invariant
            i <= chars.len(),
            chars@ == name@,
            mapped == name@.map_values(|c: char| cleaned_char(c)),
            cleaned@ == mapped.take(i as int),
        decreases chars.len() - i,
    {
        let c = chars[i];
        let d = if c == '<' || c == '>' || c == ':' || c == '"' || c == '/' || c == '\\' || c
            == '|' || c == '?' || c == '*' || is_control(c) {
            '_'
        } else {
            c
        };
        cleaned.push(d);
        assert(cleaned@ =~= mapped.take(i + 1));
        i += 1;
    }
    assert(cleaned@ =~= mapped);
    let mut start: usize = 0;
    while start < cleaned.len() && is_whitespace(cleaned[start])
        invariant
            start <= cleaned.len(),
            forall|j: int| 0 <= j < start ==> is_white_space(cleaned@[j]),
        decreases cleaned.len() - start,
    {
        start += 1;
    }
    let ghost rest = cleaned@.subrange(start as int, cleaned.len() as int);
    proof {
        lemma_trim_start_skip(cleaned@, start as int);
        if start < cleaned.len() {
            assert(!is_white_space(rest[0]));
        }
        assert(trim_start(rest) == rest);
    }
    let mut end: usize = cleaned.len();
    while end > start && is_whitespace(cleaned[end - 1])
        invariant
            start <= end <= cleaned.len(),
            forall|j: int| end <= j < cleaned.len() ==> is_white_space(cleaned@[j]),
        decreases end,
    {
        end -= 1;
    }
    proof {
        lemma_trim_end_cut(rest, end - start);
        let core = rest.subrange(0, end - start);
        if end > start {
            assert(core.last() == cleaned@[end - 1]);
        }
        assert(trim_end(core) == core);
        assert(core =~= cleaned@.subrange(start as int, end as int));
    }
    let mut r = String::new();
    let mut k: usize = start;
    while k < end
        invariant
            start <= k <= end,
            end <= cleaned.len(),
            r@ == cleaned@.subrange(start as int, k as int),
        decreases end - k,
    {
        string_push(&mut r, cleaned[k]);
        assert(r@ =~= cleaned@.subrange(start as int, k + 1));
        k += 1;
    }
    r
}

/// The file name a macro of the given name is stored under: the sanitized
/// name with `.json` appended.
pub fn macro_file_name(name: &str) -> (r: String)
    ensures
        r@ == sanitized(name@) + ".json"@,
{
    let mut r = sanitize_name(name);
    r.append(".json");
    r
}

/// `base` extended by the relative component `child`, the way a Windows path
/// is joined: a `\` goes between them unless `base` is empty or already ends
/// in a separator.
pub open spec fn joined(base: Seq<char>, child: Seq<char>) -> Seq<char> {
    if base.len() == 0 {
        child
    } else if base.last() == '\\' || base.last() == '/' {
        base + child
    } else {
        base + seq!['\\'] + child
    }
}

/// The configuration directory below the `APPDATA` directory.
pub open spec fn config_dir_of(appdata: Seq<char>) -> Seq<char> {
    joined(joined(joined(appdata, "MKAC"@), "MKAC"@), "config"@)
}

/// `base` joined with `child` as a path.
pub fn join_path(base: &str, child: &str) -> (r: String)
    ensures
        r@ == joined(base@, child@),
{
    let cs = chars_of(base);
    let mut r = String::from_str(base);
    if cs.len() > 0 {
        let last = cs[cs.len() - 1];
        if last != '\\' && last != '/' {
            string_push(&mut r, '\\');
        }
    }
    r.append(child);
    r
}

/// `%APPDATA%\MKAC\MKAC\config`, given the value of `APPDATA`; `None`
/// when that variable is not set.
pub fn config_dir(appdata: Option<&str>) -> (r: Option<String>)
    ensures
        r is Some <==> appdata is Some,
        r is Some ==> r->0@ == config_dir_of(appdata->0@),
{
    match appdata {
        None => None,
        Some(a) => {
            let d1 = join_path(a, "MKAC");
            let d2 = join_path(d1.as_str(), "MKAC");
            Some(join_path(d2.as_str(), "config"))
        },
    }
}

/// The settings file inside the configuration directory.
pub fn settings_path(appdata: Option<&str>) -> (r: Option<String>)
    ensures
        r is Some <==> appdata is Some,
        r is Some ==> r->0@ == joined(config_dir_of(appdata->0@), "settings.json"@),
{
    match config_dir(appdata) {
        None => None,
        Some(d) => Some(join_path(d.as_str(), "settings.json")),
    }
}

/// A character a sanitized name may hold: neither forbidden nor a control
/// character.
pub open spec fn name_safe(c: char) -> bool {
    !is_forbidden_in_name(c) && !is_control_char(c)
}

proof fn lemma_trim_start_shape(s: Seq<char>)
    ensures
        trim_start(s).len() <= s.len(),
        trim_start(s) == s.subrange(s.len() - trim_start(s).len(), s.len() as int),
        trim_start(s).len() > 0 ==> !is_white_space(trim_start(s)[0]),
    decreases s.len(),
{
    if s.len() > 0 && is_white_space(s[0]) {
        lemma_trim_start_shape(s.drop_first());
        let t = trim_start(s.drop_first());
        assert(s.drop_first().subrange(s.drop_first().len() - t.len(), s.drop_first().len() as int)
            =~= s.subrange(s.len() - t.len(), s.len() as int));
    } else {
        assert(s.subrange(0, s.len() as int) =~= s);
    }
}

proof fn lemma_trim_end_shape(s: Seq<char>)
    ensures
        trim_end(s).len() <= s.len(),
        trim_end(s) == s.subrange(0, trim_end(s).len() as int),
        trim_end(s).len() > 0 ==> !is_white_space(trim_end(s).last()),
    decreases s.len(),
{
    if s.len() > 0 && is_white_space(s.last()) {
        lemma_trim_end_shape(s.drop_last());
        let t = trim_end(s.drop_last());
        assert(s.drop_last().subrange(0, t.len() as int) =~= s.subrange(0, t.len() as int));
    } else {
        assert(s.subrange(0, s.len() as int) =~= s);
    }
}

/// A sanitized name holds no forbidden or control character and neither
/// starts nor ends with whitespace.
pub proof fn lemma_sanitized_is_clean(name: Seq<char>)
    ensures
        forall|i: int| 0 <= i < sanitized(name).len() ==> name_safe(#[trigger] sanitized(name)[i]),
        sanitized(name).len() > 0 ==> !is_white_space(sanitized(name)[0]),
        sanitized(name).len() > 0 ==> !is_white_space(sanitized(name).last()),
{
    let m = name.map_values(|c: char| cleaned_char(c));
    let u = trim_start(m);
    let t = trim_end(u);
    lemma_trim_start_shape(m);
    lemma_trim_end_shape(u);
    assert forall|i: int| 0 <= i < t.len() implies name_safe(#[trigger] t[i]) by {
        let j = m.len() - u.len() + i;
        assert(t[i] == u[i]);
        assert(u[i] == m[j]);
        assert(m[j] == cleaned_char(name[j]));
    }
    if t.len() > 0 {
        assert(t[0] == u[0]);
    }
}

/// Sanitizing a sanitized name changes nothing.
pub proof fn lemma_sanitize_idempotent(name: Seq<char>)
    ensures
        sanitized(sanitized(name)) == sanitized(name),
{
    let t = sanitized(name);
    lemma_sanitized_is_clean(name);
    let m = t.map_values(|c: char| cleaned_char(c));
    assert(m =~= t) by {
        assert forall|i: int| 0 <= i < t.len() implies m[i] == t[i] by {
            assert(name_safe(t[i]));
        }
    }
    assert(trim_start(t) == t);
    if t.len() > 0 {
        assert(trim_end(t) == t);
    }
}

} // verus!

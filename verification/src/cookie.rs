//! The cookie that carries the PKCE code verifier from the login redirect to
//! the callback page: how it is written and how it is read back.

use vstd::prelude::*;
use vstd::string::StringExecFns;
use crate::pkce::{is_unreserved_char, is_valid_code_verifier};
use crate::text::{is_white_space, lemma_first_index_of, lemma_split_on_single, lemma_trim_fixed, trim_start, trim_end, chars_of, find_in_range, first_index_of, lemma_split_on_join, lemma_split_on_nonempty, range_equals, split_on, string_of_range, trim, trim_range};

verus! {

/// The name of the cookie that holds the PKCE code verifier.
pub const PKCE_COOKIE_NAME: &'static str = "pkce_verifier";

/// The value of one `name=value` entry of a cookie list, when its name is `name`:
/// the entry is trimmed, the name is what comes before the first `=`, the value what
/// comes after it. An entry without `=` has no value.
pub open spec fn entry_value(entry: Seq<char>, name: Seq<char>) -> Option<Seq<char>> {
    let t = trim(entry);
    match first_index_of(t, '=') {
        Some(k) => if t.take(k) == name {
            Some(t.skip(k + 1))
        } else {
            None
        },
        None => None,
    }
}

/// The value of the first of `entries` whose name is `name`.
pub open spec fn first_entry_value(entries: Seq<Seq<char>>, name: Seq<char>) -> Option<Seq<char>>
    decreases entries.len(),
{
    if entries.len() == 0 {
        None
    } else {
        match entry_value(entries[0], name) {
            Some(v) => Some(v),
            None => first_entry_value(entries.drop_first(), name),
        }
    }
}

/// The value of the cookie `name` in a `;`-separated cookie list such as `document.cookie`.
pub open spec fn cookie_value(jar: Seq<char>, name: Seq<char>) -> Option<Seq<char>> {
    first_entry_value(split_on(jar, ';'), name)
}

/// The `Set-Cookie` text that stores `verifier` for five minutes on every path.
pub open spec fn verifier_cookie_text(verifier: Seq<char>) -> Seq<char> {
    PKCE_COOKIE_NAME@ + "="@ + verifier + ";"@ + " Path=/; Max-Age=300; SameSite=Lax"@
}

pub proof fn lemma_first_entry_value_join(a: Seq<Seq<char>>, b: Seq<Seq<char>>, name: Seq<char>)
    ensures
        first_entry_value(a + b, name) == (match first_entry_value(a, name) {
            Some(v) => Some(v),
            None => first_entry_value(b, name),
        }),
    decreases a.len(),
{
    if a.len() > 0 {
        lemma_first_entry_value_join(a.drop_first(), b, name);
        assert((a + b).drop_first() =~= a.drop_first() + b);
    } else {
        assert(a + b =~= b);
    }
}

/// Looks up the cookie `name` in a cookie list such as `document.cookie`
/// (`a=1; b=2`): the value of the first entry whose name is `name`.
pub fn cookie_value_in(jar: &str, name: &str) -> (r: Option<String>)
    ensures
        match r {
            Some(v) => cookie_value(jar@, name@) == Some(v@),
            None => cookie_value(jar@, name@) is None,
        },
{
    let cs = chars_of(jar);
    let ns = chars_of(name);
    let mut start: usize = 0;
    let mut i: usize = 0;
    let ghost mut done: Seq<Seq<char>> = Seq::empty();
    assert(cs@.take(0) =~= Seq::<char>::empty());
    assert(cs@.subrange(0, 0) =~= Seq::<char>::empty());
    while i < cs.len()
        invariant
            cs@ == jar@,
            ns@ == name@,
            start <= i <= cs.len(),
            split_on(cs@.take(i as int), ';') == done.push(cs@.subrange(start as int, i as int)),
            first_entry_value(done, name@) is None,
        decreases cs.len() - i,
    {
        let ghost seg = cs@.subrange(start as int, i as int);
        if cs[i] == ';' {
            let r = entry_value_in_range(&cs, start, i, &ns);
            proof {
                lemma_first_entry_value_join(done, seq![seg], name@);
            }
            if r.is_some() {
                proof {
                    assert(cs@ =~= cs@.take(i as int) + seq![';'] + cs@.skip(i + 1));
                    lemma_split_on_join(cs@.take(i as int), cs@.skip(i + 1), ';');
                    assert(done.push(seg) =~= done + seq![seg]);
                    lemma_first_entry_value_join(done + seq![seg], split_on(cs@.skip(i + 1), ';'), name@);
                    reveal_with_fuel(first_entry_value, 2);
                }
                return r;
            }
            proof {
                reveal_with_fuel(first_entry_value, 2);
                assert(done.push(seg) =~= done + seq![seg]);
                done = done.push(seg);
                assert(cs@.take(i + 1).drop_last() =~= cs@.take(i as int));
                assert(cs@.subrange(i + 1, i + 1) =~= Seq::<char>::empty());
            }
            start = i + 1;
        } else {
            proof {
                assert(cs@.take(i + 1).drop_last() =~= cs@.take(i as int));
                lemma_split_on_nonempty(cs@.take(i as int), ';');
                assert(seg.push(cs@[i as int]) =~= cs@.subrange(start as int, i + 1));
                assert(done.push(seg).update(done.len() as int, seg.push(cs@[i as int])) =~= done.push(
                    cs@.subrange(start as int, i + 1),
                ));
            }
        }
        i = i + 1;
    }
    let r = entry_value_in_range(&cs, start, cs.len(), &ns);
    proof {
        let seg = cs@.subrange(start as int, cs.len() as int);
        assert(cs@.take(cs.len() as int) =~= cs@);
        assert(done.push(seg) =~= done + seq![seg]);
        lemma_first_entry_value_join(done, seq![seg], name@);
        reveal_with_fuel(first_entry_value, 2);
    }
    r
}

/// The value of the entry `v[lo..hi]` when its name is `name`.
fn entry_value_in_range(v: &Vec<char>, lo: usize, hi: usize, name: &Vec<char>) -> (r: Option<String>)
    requires
        lo <= hi <= v.len(),
    ensures
        match r {
            Some(s) => entry_value(v@.subrange(lo as int, hi as int), name@) == Some(s@),
            None => entry_value(v@.subrange(lo as int, hi as int), name@) is None,
        },
{
    let (a, b) = trim_range(v, lo, hi);
    let k = find_in_range(v, a, b, '=');
    let ghost t = v@.subrange(a as int, b as int);
    if k == b {
        return None;
    }
    assert(t.take(k - a) =~= v@.subrange(a as int, k as int));
    assert(t.skip(k - a + 1) =~= v@.subrange(k + 1, b as int));
    if range_equals(v, a, k, name) {
        Some(string_of_range(v, k + 1, b))
    } else {
        None
    }
}

/// The `Set-Cookie` text that stores the PKCE code verifier for the callback page.
pub fn verifier_cookie(verifier: &str) -> (c: String)
    ensures
        c@ == verifier_cookie_text(verifier@),
{
    let mut c = String::from_str(PKCE_COOKIE_NAME);
    c.append("=");
    c.append(verifier);
    c.append(";");
    c.append(" Path=/; Max-Age=300; SameSite=Lax");
    c
}


/// A PKCE entry `pkce_verifier=<v>`, possibly after one space, is read as `v`.
proof fn lemma_pkce_entry(lead: Seq<char>, v: Seq<char>)
    requires
        is_valid_code_verifier(v),
        lead == Seq::<char>::empty() || lead == seq![' '],
    ensures
        split_on(lead + PKCE_COOKIE_NAME@ + "="@ + v, ';') == seq![lead + PKCE_COOKIE_NAME@ + "="@ + v],
        entry_value(lead + PKCE_COOKIE_NAME@ + "="@ + v, PKCE_COOKIE_NAME@) == Some(v),
{
    reveal_strlit("pkce_verifier");
    reveal_strlit("=");
    let name = PKCE_COOKIE_NAME@;
    let e = name + "="@ + v;
    let entry = lead + name + "="@ + v;
    assert(entry =~= lead + e);
    assert(e[0] == 'p');
    assert(!is_white_space(e[0]));
    assert(is_unreserved_char(v[0]));
    assert(is_unreserved_char(v.last()));
    assert forall|i: int| 0 <= i < entry.len() implies entry[i] != ';' by {
        if i >= lead.len() + name.len() + 1 {
            assert(entry[i] == v[i - lead.len() - name.len() - 1]);
            assert(is_unreserved_char(v[i - lead.len() - name.len() - 1]));
        }
    }
    lemma_split_on_single(entry, ';');
    if lead.len() == 1 {
        assert(entry.drop_first() =~= e);
        assert(is_white_space(entry[0]));
    } else {
        assert(entry =~= e);
    }
    assert(trim_start(entry) == e);
    assert(e.last() == v.last());
    lemma_trim_fixed(e);
    assert(trim_end(e) == e);
    assert(trim(entry) == e);
    assert forall|m: int| 0 <= m < name.len() implies e[m] != '=' by {}
    lemma_first_index_of(e, '=', name.len() as int);
    assert(e.take(name.len() as int) =~= name);
    assert(e.skip(name.len() as int + 1) =~= v);
}

/// What the login page writes is what the callback page reads: in the `Set-Cookie`
/// text for a valid code verifier, the cookie `pkce_verifier` has that verifier as value.
pub proof fn lemma_verifier_cookie_read_back(v: Seq<char>)
    requires
        is_valid_code_verifier(v),
    ensures
        cookie_value(verifier_cookie_text(v), PKCE_COOKIE_NAME@) == Some(v),
{
    reveal_strlit(";");
    let entry = PKCE_COOKIE_NAME@ + "="@ + v;
    let rest = " Path=/; Max-Age=300; SameSite=Lax"@;
    lemma_pkce_entry(Seq::<char>::empty(), v);
    assert(Seq::<char>::empty() + entry =~= entry);
    assert(verifier_cookie_text(v) =~= entry + seq![';'] + rest);
    lemma_split_on_join(entry, rest, ';');
    lemma_first_entry_value_join(seq![entry], split_on(rest, ';'), PKCE_COOKIE_NAME@);
    reveal_with_fuel(first_entry_value, 2);
}

/// A browser cookie list that holds `pkce_verifier=<v>` behind other cookies, none of
/// them named `pkce_verifier`, gives `v` back, whatever follows it.
pub proof fn lemma_verifier_found_in_jar(earlier: Seq<char>, v: Seq<char>, later: Seq<char>)
    requires
        is_valid_code_verifier(v),
        cookie_value(earlier, PKCE_COOKIE_NAME@) is None,
    ensures
        cookie_value(earlier + "; "@ + PKCE_COOKIE_NAME@ + "="@ + v, PKCE_COOKIE_NAME@) == Some(v),
        cookie_value(earlier + "; "@ + PKCE_COOKIE_NAME@ + "="@ + v + "; "@ + later, PKCE_COOKIE_NAME@)
            == Some(v),
{
    reveal_strlit("; ");
    let name = PKCE_COOKIE_NAME@;
    let entry = seq![' '] + name + "="@ + v;
    lemma_pkce_entry(seq![' '], v);
    reveal_with_fuel(first_entry_value, 2);
    // the list ends with the entry
    assert(earlier + "; "@ + name + "="@ + v =~= earlier + seq![';'] + entry);
    lemma_split_on_join(earlier, entry, ';');
    lemma_first_entry_value_join(split_on(earlier, ';'), seq![entry], name);
    // the list goes on after the entry
    let tail = seq![' '] + later;
    assert(earlier + "; "@ + name + "="@ + v + "; "@ + later =~= earlier + seq![';'] + (entry
        + seq![';'] + tail));
    lemma_split_on_join(entry, tail, ';');
    lemma_split_on_join(earlier, entry + seq![';'] + tail, ';');
    lemma_first_entry_value_join(seq![entry], split_on(tail, ';'), name);
    lemma_first_entry_value_join(split_on(earlier, ';'), seq![entry] + split_on(tail, ';'), name);
    assert(split_on(earlier, ';') + split_on(entry + seq![';'] + tail, ';') =~= split_on(earlier, ';')
        + (seq![entry] + split_on(tail, ';')));
}

} // verus!

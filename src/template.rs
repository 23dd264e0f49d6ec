//! Substitution of `{{NAME}}` and `$NAME` placeholders in configuration text.
use std::collections::HashMap;
use vstd::prelude::*;
use vstd::std_specs::hash::obeys_key_model;
use vstd::std_specs::iter::IteratorSpec;

use crate::error::Error;
use crate::text::{chars_of, replace_all, replace_chars, string_of};

verus! {

/// A variable's name and value, as text.
pub type VarSeq = Seq<(Seq<char>, Seq<char>)>;

/// The placeholder `{{name}}`.
pub open spec fn brace_placeholder(name: Seq<char>) -> Seq<char> {
    seq!['{', '{'] + name + seq!['}', '}']
}

/// The placeholder `$name`.
pub open spec fn dollar_placeholder(name: Seq<char>) -> Seq<char> {
    seq!['$'] + name
}

/// `s` with each variable's `{{name}}` replaced by its value, one variable
/// after the other in the order given.
pub open spec fn fill_braces(s: Seq<char>, vars: VarSeq) -> Seq<char>
    decreases vars.len(),
{
    if vars.len() == 0 {
        s
    } else {
        replace_all(fill_braces(s, vars.drop_last()), brace_placeholder(vars.last().0), vars.last().1)
    }
}

/// `s` with each variable's `$name` replaced by its value, one variable
/// after the other in the order given.
pub open spec fn fill_dollars(s: Seq<char>, vars: VarSeq) -> Seq<char>
    decreases vars.len(),
{
    if vars.len() == 0 {
        s
    } else {
        replace_all(fill_dollars(s, vars.drop_last()), dollar_placeholder(vars.last().0), vars.last().1)
    }
}

/// The template `s` rendered with `vars`: first every `{{name}}`, then every
/// `$name`. Placeholders of unknown names stay as they are.
pub open spec fn render(s: Seq<char>, vars: VarSeq) -> Seq<char> {
    fill_dollars(fill_braces(s, vars), vars)
}

/// The texts of a list of name/value pairs.
pub open spec fn var_texts(v: Seq<(String, String)>) -> VarSeq {
    v.map_values(|p: (String, String)| (p.0@, p.1@))
}

/// Replaces every occurrence of one variable's placeholder.
fn substitute(text: &Vec<char>, prefix: &Vec<char>, name: &String, suffix: &Vec<char>, value: &String) -> (r: Vec<char>)
    ensures
        r@ == replace_all(text@, prefix@ + name@ + suffix@, value@),
{
    let mut pat: Vec<char> = Vec::new();
    let n = chars_of(name.as_str());
    let mut i: usize = 0;
    let parts = [prefix, &n, suffix];
    let mut p: usize = 0;
    while p < 3
        invariant
            p <= 3,
            parts@.len() == 3,
            parts@[0]@ == prefix@,
            parts@[1]@ == name@,
            parts@[2]@ == suffix@,
            pat@ == if p == 0 {
                Seq::<char>::empty()
            } else if p == 1 {
                prefix@
            } else if p == 2 {
                prefix@ + name@
            } else {
                prefix@ + name@ + suffix@
            },
        decreases 3 - p,
    {
        let part = parts[p];
        let ghost before = pat@;
        i = 0;
        while i < part.len()
            invariant
                i <= part@.len(),
                pat@ == before + part@.subrange(0, i as int),
            decreases part@.len() - i,
        {
            pat.push(part[i]);
            i = i + 1;
            assert(pat@ =~= before + part@.subrange(0, i as int));
        }
        assert(part@.subrange(0, part@.len() as int) =~= part@);
        p = p + 1;
    }
    let v = chars_of(value.as_str());
    replace_chars(text, &pat, &v)
}

/// Relies on `Iterator::next` of a map's entry iterator: the next of the
/// entries still to come, or none once every entry was yielded.
#[verifier::external_body]
fn next_entry<'a>(entries: &mut std::collections::hash_map::Iter<'a, String, String>) -> (r: Option<(&'a String, &'a String)>)
    ensures
        (*old(entries)).remaining().len() > 0 ==> r == Some((*old(entries)).remaining()[0])
            && (*final(entries)).remaining() == (*old(entries)).remaining().drop_first(),
        (*old(entries)).remaining().len() == 0 ==> r is None && (*final(entries)).remaining()
            == (*old(entries)).remaining(),
{
    entries.next()
}

/// Copies of a map's entries, in the order the map yields them. Where the
/// key type follows vstd's hash-table model, they are exactly the map's
/// entries, each once.
pub fn map_entries(m: &HashMap<String, String>) -> (r: Vec<(String, String)>)
    ensures
        obeys_key_model::<String>() ==> r@.to_set() == m@.kv_pairs() && r@.no_duplicates()
            && r@.len() == m@.len(),
{
    let mut out: Vec<(String, String)> = Vec::new();
    let mut entries = m.iter();
    let ghost start = entries;
    let ghost all = entries.remaining();
    let n = m.len();
    let mut i: usize = 0;
    while i < n
        invariant
            i <= n,
            entries.remaining() == all.subrange(
                if i <= all.len() { i as int } else { all.len() as int },
                all.len() as int,
            ),
            out@ == all.unref().subrange(0, if i <= all.len() { i as int } else { all.len() as int }),
        decreases n - i,
    {
        let ghost k: int = if i <= all.len() { i as int } else { all.len() as int };
        match next_entry(&mut entries) {
            Some((key, value)) => {
                out.push((key.clone(), value.clone()));
                assert(out@ =~= all.unref().subrange(0, k + 1));
                assert(entries.remaining() =~= all.subrange(k + 1, all.len() as int));
            },
            None => {},
        }
        i = i + 1;
    }
    proof {
        if obeys_key_model::<String>() {
            assert(start == vstd::std_specs::hash::spec_hash_map_iter(m));
            assert(all.len() == m@.dom().len());
            assert(out@ =~= all.unref());
            assert(out@.to_set() == m@.kv_pairs());
            assert forall|a: int, b: int| 0 <= a < b < out@.len() implies out@[a] != out@[b] by {
                assert(all[a] != all[b]);
            }
        }
    }
    out
}

/// Placeholder substitution.
pub struct TemplateProcessor;

impl TemplateProcessor {
    /// Renders `content` with the variables in the order given (see
    /// [`render`]).
    pub fn process_ordered(content: &str, vars: &Vec<(String, String)>) -> (r: String)
        ensures
            r@ == render(content@, var_texts(vars@)),
    {
        let ghost vs = var_texts(vars@);
        let open: Vec<char> = vec!['{', '{'];
        let close: Vec<char> = vec!['}', '}'];
        let dollar: Vec<char> = vec!['$'];
        let empty: Vec<char> = Vec::new();
        assert(open@ =~= seq!['{', '{']);
        assert(close@ =~= seq!['}', '}']);
        assert(dollar@ =~= seq!['$']);
        let mut text = chars_of(content);
        let mut i: usize = 0;
        while i < vars.len()
            invariant
                vs == var_texts(vars@),
                i <= vars@.len(),
                open@ == seq!['{', '{'],
                close@ == seq!['}', '}'],
                text@ == fill_braces(content@, vs.subrange(0, i as int)),
            decreases vars@.len() - i,
        {
            let (name, value) = &vars[i];
            text = substitute(&text, &open, name, &close, value);
            i = i + 1;
            assert(vs.subrange(0, i as int).drop_last() =~= vs.subrange(0, i - 1));
        }
        assert(vs.subrange(0, vars@.len() as int) =~= vs);
        let ghost braced = text@;
        i = 0;
        while i < vars.len()
            invariant
                vs == var_texts(vars@),
                i <= vars@.len(),
                dollar@ == seq!['$'],
                empty@ == Seq::<char>::empty(),
                text@ == fill_dollars(braced, vs.subrange(0, i as int)),
            decreases vars@.len() - i,
        {
            let (name, value) = &vars[i];
            text = substitute(&text, &dollar, name, &empty, value);
            assert(dollar@ + name@ + empty@ =~= dollar_placeholder(name@));
            i = i + 1;
            assert(vs.subrange(0, i as int).drop_last() =~= vs.subrange(0, i - 1));
        }
        assert(vs.subrange(0, vars@.len() as int) =~= vs);
        string_of(text.as_slice())
    }

    /// Renders `content` with the variables of `vars`, taken in the order in
    /// which the map yields them: each entry once (where the key type
    /// follows vstd's hash-table model). Always succeeds.
    pub fn process(content: &str, vars: &HashMap<String, String>) -> (r: Result<String, Error>)
        ensures
            r is Ok,
            exists|order: Seq<(String, String)>|
                r->Ok_0@ == render(content@, #[trigger] var_texts(order)) && (obeys_key_model::<String>()
                    ==> order.to_set() == vars@.kv_pairs() && order.no_duplicates()),
    {
        let pairs = map_entries(vars);
        let out = TemplateProcessor::process_ordered(content, &pairs);
        assert(out@ == render(content@, var_texts(pairs@)));
        Ok(out)
    }
}

} // verus!

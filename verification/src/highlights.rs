//! Flattening the ordered token-color rule list into a key-unique highlight
//! mapping. Rules are processed in list order, each rule's selectors in
//! order; a later pair with an identical selector overwrites an earlier one
//! (last write wins). A malformed color inside any rule fails the whole
//! extraction.

use vstd::prelude::*;
use crate::color;
use crate::color::{Color, ColorParseError};
use crate::error::ConvertError;
use crate::output::HighlightStyle;
use crate::vscode::TokenColorRule;

verus! {

/// A rule contributes mapping entries when it has at least one selector and
/// at least one usable setting (a foreground color or a style flag).
pub open spec fn rule_contributes(r: TokenColorRule) -> bool {
    r.scope@.len() > 0 && (r.settings.foreground is Some || r.settings.bold || r.settings.italic
        || r.settings.underline)
}

/// The style a rule's settings denote, or the parse error of its foreground.
pub open spec fn rule_style(r: TokenColorRule) -> Result<HighlightStyle, ColorParseError> {
    match r.settings.foreground {
        None => Ok(
            HighlightStyle {
                color: None,
                bold: r.settings.bold,
                italic: r.settings.italic,
                underline: r.settings.underline,
            },
        ),
        Some(s) => match color::spec_parse_color(s@) {
            Ok(c) => Ok(
                HighlightStyle {
                    color: Some(c),
                    bold: r.settings.bold,
                    italic: r.settings.italic,
                    underline: r.settings.underline,
                },
            ),
            Err(e) => Err(e),
        },
    }
}

/// Insert one style under every selector of a rule, in selector order.
pub open spec fn insert_scopes(
    m: Map<Seq<char>, HighlightStyle>,
    scopes: Seq<String>,
    st: HighlightStyle,
) -> Map<Seq<char>, HighlightStyle>
    decreases scopes.len(),
{
    if scopes.len() == 0 {
        m
    } else {
        insert_scopes(m.insert(scopes[0]@, st), scopes.drop_first(), st)
    }
}

/// The highlight mapping produced by the rules, processed in order starting
/// from the accumulated mapping `m`; `base` is the list position of
/// `rules[0]`, used to attribute an error to its rule.
pub open spec fn spec_extract_from(
    rules: Seq<TokenColorRule>,
    base: int,
    m: Map<Seq<char>, HighlightStyle>,
) -> Result<Map<Seq<char>, HighlightStyle>, ConvertError>
    decreases rules.len(),
{
    if rules.len() == 0 {
        Ok(m)
    } else {
        let rule = rules[0];
        if !rule_contributes(rule) {
            spec_extract_from(rules.drop_first(), base + 1, m)
        } else {
            match rule_style(rule) {
                Err(e) => Err(ConvertError::TokenColor { index: base as usize, cause: e }),
                Ok(st) => spec_extract_from(
                    rules.drop_first(),
                    base + 1,
                    insert_scopes(m, rule.scope@, st),
                ),
            }
        }
    }
}

/// The mapping the whole rule list denotes.
pub open spec fn spec_extract_highlights(rules: Seq<TokenColorRule>) -> Result<
    Map<Seq<char>, HighlightStyle>,
    ConvertError,
> {
    spec_extract_from(rules, 0, Map::empty())
}

// ---------------------------------------------------------------------------
// The flat pair list as a mapping
// ---------------------------------------------------------------------------

/// No selector key occurs twice.
pub open spec fn pairs_unique(s: Seq<(String, HighlightStyle)>) -> bool {
    forall|i: int, j: int| 0 <= i < j < s.len() ==> s[i].0@ != s[j].0@
}

/// The mapping a pair list stands for.
pub open spec fn pairs_map(s: Seq<(String, HighlightStyle)>) -> Map<Seq<char>, HighlightStyle>
    decreases s.len(),
{
    if s.len() == 0 {
        Map::empty()
    } else {
        pairs_map(s.drop_last()).insert(s.last().0@, s.last().1)
    }
}

/// The mapping holds a key exactly when some pair of the list carries it;
/// with `extract_highlights`' contract this tells a caller which selectors
/// the returned list covers.
pub proof fn lemma_pairs_map_domain(s: Seq<(String, HighlightStyle)>, k: Seq<char>)
    ensures
        pairs_map(s).contains_key(k) <==> exists|i: int| 0 <= i < s.len() && s[i].0@ == k,
    decreases s.len(),
{
    if s.len() > 0 {
        lemma_pairs_map_domain(s.drop_last(), k);
        if s.last().0@ == k {
            assert(s[s.len() - 1].0@ == k);
        } else if pairs_map(s).contains_key(k) {
            let i = choose|i: int| 0 <= i < s.drop_last().len() && s.drop_last()[i].0@ == k;
            assert(s[i].0@ == k);
        } else if exists|i: int| 0 <= i < s.len() && s[i].0@ == k {
            let i = choose|i: int| 0 <= i < s.len() && s[i].0@ == k;
            assert(i < s.len() - 1);
            assert(s.drop_last()[i].0@ == k);
        }
    }
}

/// In a key-unique pair list, every pair's value is the mapping's value for
/// its key; with `extract_highlights`' contract this reads an entry of the
/// returned list back from the abstract mapping.
pub proof fn lemma_pairs_map_lookup(s: Seq<(String, HighlightStyle)>, i: int)
    requires
        pairs_unique(s),
        0 <= i < s.len(),
    ensures
        pairs_map(s).contains_key(s[i].0@),
        pairs_map(s)[s[i].0@] == s[i].1,
    decreases s.len(),
{
    if i < s.len() - 1 {
        assert(pairs_unique(s.drop_last()));
        lemma_pairs_map_lookup(s.drop_last(), i);
        assert(s.drop_last()[i] == s[i]);
        assert(s[i].0@ != s.last().0@);
    }
}

proof fn lemma_pairs_map_update(s: Seq<(String, HighlightStyle)>, i: int, p: (String, HighlightStyle))
    requires
        pairs_unique(s),
        0 <= i < s.len(),
        p.0@ == s[i].0@,
    ensures
        pairs_map(s.update(i, p)) == pairs_map(s).insert(p.0@, p.1),
        pairs_unique(s.update(i, p)),
    decreases s.len(),
{
    let t = s.update(i, p);
    assert forall|x: int, y: int| 0 <= x < y < t.len() implies t[x].0@ != t[y].0@ by {
        assert(s[x].0@ != s[y].0@);
    }
    if i == s.len() - 1 {
        assert(t.drop_last() =~= s.drop_last());
        assert(t.last() == p);
        assert(pairs_map(s).insert(p.0@, p.1) =~= pairs_map(s.drop_last()).insert(p.0@, p.1));
    } else {
        assert(t.drop_last() =~= s.drop_last().update(i, p));
        assert(t.last() == s.last());
        assert(pairs_unique(s.drop_last()));
        assert(s.drop_last()[i] == s[i]);
        lemma_pairs_map_update(s.drop_last(), i, p);
        assert(s.last().0@ != p.0@);
        assert(pairs_map(s.drop_last()).insert(p.0@, p.1).insert(s.last().0@, s.last().1)
            =~= pairs_map(s.drop_last()).insert(s.last().0@, s.last().1).insert(p.0@, p.1));
    }
}

// ---------------------------------------------------------------------------
// Executable extraction
// ---------------------------------------------------------------------------

/// Set `key` to `st` in the pair list: overwrite the existing entry for an
/// equal key, or append a new one.
fn upsert(out: &mut Vec<(String, HighlightStyle)>, key: &String, st: HighlightStyle)
    requires
        pairs_unique(old(out)@),
    ensures
        pairs_unique(final(out)@),
        pairs_map(final(out)@) == pairs_map(old(out)@).insert(key@, st),
{
    let n = out.len();
    let mut i: usize = 0;
    while i < n
        invariant
            i <= n,
            n == out@.len(),
            out@ == old(out)@,
            pairs_unique(out@),
            forall|j: int| 0 <= j < i ==> out@[j].0@ != key@,
        decreases n - i,
    {
        if out[i].0.eq(key) {
            let p = (key.clone(), st);
            proof {
                lemma_pairs_map_update(out@, i as int, p);
            }
            out[i] = p;
            return ;
        }
        i = i + 1;
    }
    out.push((key.clone(), st));
    proof {
        assert(final(out)@.drop_last() =~= old(out)@);
        assert forall|x: int, y: int| 0 <= x < y < final(out)@.len() implies final(out)@[x].0@
            != final(out)@[y].0@ by {
            if y < final(out)@.len() - 1 {
                assert(old(out)@[x].0@ != old(out)@[y].0@);
            } else {
                assert(final(out)@[x] == old(out)@[x]);
            }
        }
    }
}

/// Walk the ordered rule list and produce the flat highlight mapping, later
/// rules overwriting earlier ones on equal selectors. Fails with the first
/// rule whose foreground color does not parse.
pub fn extract_highlights(token_colors: &Vec<TokenColorRule>) -> (r: Result<
    Vec<(String, HighlightStyle)>,
    ConvertError,
>)
    ensures
        match r {
            Ok(v) => pairs_unique(v@) && spec_extract_highlights(token_colors@) == Ok::<
                Map<Seq<char>, HighlightStyle>,
                ConvertError,
            >(pairs_map(v@)),
            Err(e) => spec_extract_highlights(token_colors@) == Err::<
                Map<Seq<char>, HighlightStyle>,
                ConvertError,
            >(e),
        },
{
    let mut out: Vec<(String, HighlightStyle)> = Vec::new();
    let n = token_colors.len();
    let mut ri: usize = 0;
    proof {
        assert(token_colors@.skip(0) =~= token_colors@);
    }
    while ri < n
        invariant
            ri <= n,
            n == token_colors@.len(),
            pairs_unique(out@),
            spec_extract_highlights(token_colors@) == spec_extract_from(
                token_colors@.skip(ri as int),
                ri as int,
                pairs_map(out@),
            ),
        decreases n - ri,
    {
        let rule = &token_colors[ri];
        let ghost tail = token_colors@.skip(ri as int);
        proof {
            assert(tail[0] == token_colors@[ri as int]);
            assert(tail.drop_first() =~= token_colors@.skip(ri as int + 1));
        }
        let usable = rule.settings.foreground.is_some() || rule.settings.bold
            || rule.settings.italic || rule.settings.underline;
        if rule.scope.len() > 0 && usable {
            let st = match &rule.settings.foreground {
                None => HighlightStyle {
                    color: None,
                    bold: rule.settings.bold,
                    italic: rule.settings.italic,
                    underline: rule.settings.underline,
                },
                Some(fg) => match color::parse_color(fg.as_str()) {
                    Ok(c) => HighlightStyle {
                        color: Some(c),
                        bold: rule.settings.bold,
                        italic: rule.settings.italic,
                        underline: rule.settings.underline,
                    },
                    Err(e) => {
                        return Err(ConvertError::TokenColor { index: ri, cause: e });
                    },
                },
            };
            proof {
                assert(rule_style(tail[0]) == Ok::<HighlightStyle, ColorParseError>(st));
            }
            let ghost m0 = pairs_map(out@);
            let scopes = &rule.scope;
            let sn = scopes.len();
            let mut si: usize = 0;
            proof {
                assert(scopes@.skip(0) =~= scopes@);
            }
            while si < sn
                invariant
                    si <= sn,
                    sn == scopes@.len(),
                    pairs_unique(out@),
                    insert_scopes(m0, scopes@, st) == insert_scopes(
                        pairs_map(out@),
                        scopes@.skip(si as int),
                        st,
                    ),
                decreases sn - si,
            {
                let ghost sc = scopes@.skip(si as int);
                proof {
                    assert(sc[0] == scopes@[si as int]);
                    assert(sc.drop_first() =~= scopes@.skip(si as int + 1));
                }
                upsert(&mut out, &scopes[si], st);
                si = si + 1;
            }
            proof {
                assert(scopes@.skip(sn as int) =~= Seq::<String>::empty());
                assert(insert_scopes(m0, scopes@, st) == pairs_map(out@));
            }
        }
        ri = ri + 1;
    }
    proof {
        assert(token_colors@.skip(n as int) =~= Seq::<TokenColorRule>::empty());
    }
    Ok(out)
}

// ---------------------------------------------------------------------------
// The override law
// ---------------------------------------------------------------------------

/// One of the selectors reads `k`.
pub open spec fn scopes_contain(scopes: Seq<String>, k: Seq<char>) -> bool {
    exists|i: int| 0 <= i < scopes.len() && scopes[i]@ == k
}

proof fn lemma_insert_scopes_absent(
    m: Map<Seq<char>, HighlightStyle>,
    scopes: Seq<String>,
    st: HighlightStyle,
    k: Seq<char>,
)
    requires
        !scopes_contain(scopes, k),
    ensures
        insert_scopes(m, scopes, st).contains_key(k) == m.contains_key(k),
        m.contains_key(k) ==> insert_scopes(m, scopes, st)[k] == m[k],
    decreases scopes.len(),
{
    if scopes.len() > 0 {
        assert(scopes[0]@ != k);
        assert(!scopes_contain(scopes.drop_first(), k)) by {
            if scopes_contain(scopes.drop_first(), k) {
                let i = choose|i: int|
                    0 <= i < scopes.drop_first().len() && scopes.drop_first()[i]@ == k;
                assert(scopes[i + 1]@ == k);
            }
        }
        lemma_insert_scopes_absent(m.insert(scopes[0]@, st), scopes.drop_first(), st, k);
    }
}

proof fn lemma_insert_scopes_found(
    m: Map<Seq<char>, HighlightStyle>,
    scopes: Seq<String>,
    st: HighlightStyle,
    k: Seq<char>,
)
    requires
        scopes_contain(scopes, k),
    ensures
        insert_scopes(m, scopes, st).contains_key(k),
        insert_scopes(m, scopes, st)[k] == st,
    decreases scopes.len(),
{
    let m1 = m.insert(scopes[0]@, st);
    if scopes_contain(scopes.drop_first(), k) {
        lemma_insert_scopes_found(m1, scopes.drop_first(), st, k);
    } else {
        let i = choose|i: int| 0 <= i < scopes.len() && scopes[i]@ == k;
        if i > 0 {
            assert(scopes.drop_first()[i - 1]@ == k);
        }
        assert(scopes[0]@ == k);
        lemma_insert_scopes_absent(m1, scopes.drop_first(), st, k);
    }
}

proof fn lemma_extract_last_wins(
    rules: Seq<TokenColorRule>,
    base: int,
    m: Map<Seq<char>, HighlightStyle>,
    k: Seq<char>,
)
    requires
        rules.len() > 0,
        rule_contributes(rules.last()),
        scopes_contain(rules.last().scope@, k),
        spec_extract_from(rules, base, m) is Ok,
    ensures
        rule_style(rules.last()) is Ok,
        spec_extract_from(rules, base, m)->Ok_0.contains_key(k),
        spec_extract_from(rules, base, m)->Ok_0[k] == rule_style(rules.last())->Ok_0,
    decreases rules.len(),
{
    let rule = rules[0];
    if rules.len() == 1 {
        assert(rules.last() == rule);
        let st = rule_style(rule)->Ok_0;
        lemma_insert_scopes_found(m, rule.scope@, st, k);
        assert(rules.drop_first().len() == 0);
    } else {
        assert(rules.drop_first().last() == rules.last());
        if !rule_contributes(rule) {
            lemma_extract_last_wins(rules.drop_first(), base + 1, m, k);
        } else {
            let st = rule_style(rule)->Ok_0;
            lemma_extract_last_wins(
                rules.drop_first(),
                base + 1,
                insert_scopes(m, rule.scope@, st),
                k,
            );
        }
    }
}

/// Token-rule override: when the last rule of the list selects scope `k` and
/// extraction succeeds, the mapping's entry for `k` is that rule's style —
/// whatever any earlier rule set for the same selector.
pub proof fn lemma_last_rule_wins(rules: Seq<TokenColorRule>, k: Seq<char>)
    requires
        rules.len() > 0,
        rule_contributes(rules.last()),
        scopes_contain(rules.last().scope@, k),
        spec_extract_highlights(rules) is Ok,
    ensures
        rule_style(rules.last()) is Ok,
        spec_extract_highlights(rules)->Ok_0.contains_key(k),
        spec_extract_highlights(rules)->Ok_0[k] == rule_style(rules.last())->Ok_0,
{
    lemma_extract_last_wins(rules, 0, Map::empty(), k);
}

} // verus!

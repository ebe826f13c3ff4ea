//! Rules: what triggers them, how their filters match a webhook's context, and how
//! their reaction templates are rendered.
use vstd::prelude::*;
use crate::shared::json::{JsonValue, json_eq, json_text, member, serde_json_text};
use crate::shared::text::{str_eq, trim, trim_spec};

verus! {

/// The action a rule takes when it fires.
#[derive(Debug, Clone, Copy, PartialEq, Eq, Structural)]
pub enum ReactionType {
    VigilCreateIncident,
    HttpPost,
}

pub open spec fn reaction_type_text(t: ReactionType) -> Seq<char> {
    match t {
        ReactionType::VigilCreateIncident => "vigil_create_incident"@,
        ReactionType::HttpPost => "http_post"@,
    }
}

impl ReactionType {
    pub fn as_str(&self) -> (r: &'static str)
        ensures
            r@ == reaction_type_text(*self),
    {
        match self {
            ReactionType::VigilCreateIncident => "vigil_create_incident",
            ReactionType::HttpPost => "http_post",
        }
    }

    pub fn parse(s: &str) -> (r: Option<ReactionType>)
        ensures
            r == Some(ReactionType::VigilCreateIncident) <==> s@ == "vigil_create_incident"@,
            r == Some(ReactionType::HttpPost) <==> s@ == "http_post"@,
            r is None <==> (s@ != "vigil_create_incident"@ && s@ != "http_post"@),
    {
        proof {
            lemma_reaction_texts_differ();
        }
        if str_eq(s, "vigil_create_incident") {
            Some(ReactionType::VigilCreateIncident)
        } else if str_eq(s, "http_post") {
            Some(ReactionType::HttpPost)
        } else {
            None
        }
    }
}

/// Reading the text of a reaction type back gives the same type.
pub proof fn law_reaction_type_round_trip(t: ReactionType)
    ensures
        reaction_type_text(t) == "vigil_create_incident"@ <==> t == ReactionType::VigilCreateIncident,
        reaction_type_text(t) == "http_post"@ <==> t == ReactionType::HttpPost,
{
    lemma_reaction_texts_differ();
}

proof fn lemma_reaction_texts_differ()
    ensures
        "vigil_create_incident"@ != "http_post"@,
{
    reveal_strlit("vigil_create_incident");
    reveal_strlit("http_post");
    assert("vigil_create_incident"@.len() != "http_post"@.len());
}

/// An automation rule of a team: a trigger (service, event, filters) and a reaction.
#[derive(Debug)]
pub struct Rule {
    pub id: u128,
    pub team_id: u128,
    pub name: String,
    pub enabled: bool,
    pub trigger_service: String,
    pub trigger_event: String,
    pub trigger_filters: JsonValue,
    pub encrypted_webhook_secret: Vec<u8>,
    pub reaction_type: ReactionType,
    pub reaction_payload: JsonValue,
    pub created_by: Option<u128>,
    /// Creation time, in nanoseconds since the Unix epoch.
    pub created_at: i128,
}

/// Splits a path at every `.`: `cur` is the segment read so far, `rest` what is left
/// (as `str::split('.')` does, empty segments included).
pub open spec fn split_acc(cur: Seq<char>, rest: Seq<char>) -> Seq<Seq<char>>
    decreases rest.len(),
{
    if rest.len() == 0 {
        seq![cur]
    } else if rest[0] == '.' {
        seq![cur] + split_acc(seq![], rest.drop_first())
    } else {
        split_acc(cur.push(rest[0]), rest.drop_first())
    }
}

/// The segments of a dotted path.
pub open spec fn path_segments(path: Seq<char>) -> Seq<Seq<char>> {
    split_acc(seq![], path)
}

/// Follows object members along the segments; `None` as soon as one is missing.
pub open spec fn follow(v: JsonValue, segs: Seq<Seq<char>>) -> Option<JsonValue>
    decreases segs.len(),
{
    if segs.len() == 0 {
        Some(v)
    } else {
        match member(v, segs[0]) {
            Some(c) => follow(c, segs.drop_first()),
            None => None,
        }
    }
}

/// The value that a dotted path such as `workflow_run.conclusion` designates.
pub open spec fn resolve_path(v: JsonValue, path: Seq<char>) -> Option<JsonValue> {
    follow(v, path_segments(path))
}

proof fn lemma_follow_cons(v: JsonValue, a: Seq<char>, rest: Seq<Seq<char>>)
    ensures
        follow(v, seq![a] + rest) == match member(v, a) {
            Some(c) => follow(c, rest),
            None => None,
        },
{
    let s = seq![a] + rest;
    assert(s[0] == a);
    assert(s.drop_first() =~= rest);
}

/// Looks up a dotted path in a JSON value.
pub fn get_path<'a>(value: &'a JsonValue, path: &str) -> (r: Option<&'a JsonValue>)
    ensures
        match r {
            Some(x) => resolve_path(*value, path@) == Some(*x),
            None => resolve_path(*value, path@) is None,
        },
{
    let n = path.unicode_len();
    let mut cur: &JsonValue = value;
    let mut start: usize = 0;
    let mut i: usize = 0;
    assert(path@.subrange(0, 0) =~= Seq::<char>::empty());
    assert(path@.subrange(0, n as int) =~= path@);
    while i < n
        invariant
            n == path@.len(),
            start <= i <= n,
            resolve_path(*value, path@) == follow(
                *cur,
                split_acc(path@.subrange(start as int, i as int), path@.subrange(i as int, n as int)),
            ),
        decreases n - i,
    {
        let ghost a = path@.subrange(start as int, i as int);
        let ghost r = path@.subrange(i as int, n as int);
        assert(r[0] == path@[i as int]);
        assert(r.drop_first() =~= path@.subrange(i + 1, n as int));
        let c = path.get_char(i);
        if c == '.' {
            let seg = path.substring_char(start, i);
            proof {
                lemma_follow_cons(*cur, a, split_acc(seq![], r.drop_first()));
            }
            match cur.get(seg) {
                Some(next) => {
                    cur = next;
                    start = i + 1;
                    assert(path@.subrange(start as int, i + 1) =~= Seq::<char>::empty());
                },
                None => {
                    return None;
                },
            }
        } else {
            assert(a.push(c) =~= path@.subrange(start as int, i + 1));
        }
        i = i + 1;
    }
    let seg = path.substring_char(start, n);
    proof {
        let a = path@.subrange(start as int, n as int);
        assert(path@.subrange(n as int, n as int) =~= Seq::<char>::empty());
        assert(split_acc(a, Seq::<char>::empty()) == seq![a]);
        lemma_follow_cons(*cur, a, Seq::<Seq<char>>::empty());
        assert(seq![a] + Seq::<Seq<char>>::empty() =~= seq![a]);
    }
    let found = cur.get(seg);
    proof {
        match found {
            Some(x) => {
                assert(follow(*x, Seq::<Seq<char>>::empty()) == Some(*x));
            },
            None => {},
        }
    }
    found
}

/// Whether every filter `path: expected` holds of the context. A filter that is not
/// an object matches everything.
pub open spec fn filters_match(context: JsonValue, filters: JsonValue) -> bool {
    match filters {
        JsonValue::Object(fs) => forall|i: int|
            0 <= i < fs@.len() ==> match resolve_path(context, (#[trigger] fs@[i]).0@) {
                Some(v) => json_eq(v, fs@[i].1),
                None => false,
            },
        _ => true,
    }
}

/// Checks a rule's filters against a webhook's context.
pub fn matches_filters(context: &JsonValue, filters: &JsonValue) -> (r: bool)
    ensures
        r == filters_match(*context, *filters),
{
    match filters {
        JsonValue::Object(fs) => {
            let mut i: usize = 0;
            while i < fs.len()
                invariant
                    *filters == JsonValue::Object(*fs),
                    i <= fs@.len(),
                    forall|k: int|
                        0 <= k < i ==> match resolve_path(*context, (#[trigger] fs@[k]).0@) {
                            Some(v) => json_eq(v, fs@[k].1),
                            None => false,
                        },
                decreases fs@.len() - i,
            {
                match get_path(context, fs[i].0.as_str()) {
                    Some(found) => {
                        if !crate::shared::json::values_equal(found, &fs[i].1) {
                            return false;
                        }
                    },
                    None => {
                        return false;
                    },
                }
                i = i + 1;
            }
            true
        },
        _ => true,
    }
}

/// The first position at or after `i` where `c` occurs twice in a row.
pub open spec fn find_pair_from(s: Seq<char>, c: char, i: int) -> Option<int>
    decreases s.len() - i,
{
    if i < 0 || i + 1 >= s.len() {
        None
    } else if s[i] == c && s[i + 1] == c {
        Some(i)
    } else {
        find_pair_from(s, c, i + 1)
    }
}

pub proof fn lemma_find_pair_bounds(s: Seq<char>, c: char, i: int)
    ensures
        find_pair_from(s, c, i) matches Some(x) ==> i <= x && x + 1 < s.len() && s[x] == c && s[x
            + 1] == c,
    decreases s.len() - i,
{
    if i >= 0 && i + 1 < s.len() && !(s[i] == c && s[i + 1] == c) {
        lemma_find_pair_bounds(s, c, i + 1);
    }
}

proof fn lemma_no_pair_from(s: Seq<char>, c: char, i: int)
    requires
        0 <= i,
        forall|k: int| 0 <= k < s.len() - 1 ==> !(#[trigger] s[k] == c && s[k + 1] == c),
    ensures
        find_pair_from(s, c, i) is None,
    decreases s.len() - i,
{
    if i + 1 < s.len() {
        assert(!(s[i] == c && s[i + 1] == c));
        lemma_no_pair_from(s, c, i + 1);
    }
}

/// A template without `{{` renders as itself, whatever the context.
pub proof fn law_plain_template_is_unchanged(t: Seq<char>, ctx: JsonValue)
    requires
        forall|k: int| 0 <= k < t.len() - 1 ==> !(#[trigger] t[k] == '{' && t[k + 1] == '{'),
    ensures
        render(t, ctx) == t,
{
    lemma_no_pair_from(t, '{', 0);
    assert(t.subrange(0, t.len() as int) =~= t);
}

/// Filters that are an empty object, or no object at all, match every context.
pub proof fn law_empty_filters_match_everything(context: JsonValue, filters: JsonValue)
    requires
        match filters {
            JsonValue::Object(fs) => fs@.len() == 0,
            _ => true,
        },
    ensures
        filters_match(context, filters),
{
}

/// A rule's filters all have to hold: when object filters match a context, every
/// entry `path: expected` finds a value at `path` that equals `expected`; so one
/// entry that fails (no value there, or another value) makes the match fail.
pub proof fn law_every_filter_must_hold(context: JsonValue, filters: JsonValue, i: int)
    requires
        filters matches JsonValue::Object(fs) && 0 <= i < fs@.len(),
    ensures
        filters matches JsonValue::Object(fs) && (filters_match(context, filters) ==> (resolve_path(
            context,
            fs@[i].0@,
        ) matches Some(v) && json_eq(v, fs@[i].1))),
        filters matches JsonValue::Object(fs) && (!(resolve_path(context, fs@[i].0@) matches Some(v)
            && json_eq(v, fs@[i].1)) ==> !filters_match(context, filters)),
{
}

/// Object filters whose every entry finds an equal value in the context match it.
pub proof fn law_filters_that_all_hold_match(context: JsonValue, filters: JsonValue)
    requires
        filters matches JsonValue::Object(fs) && forall|i: int|
            0 <= i < fs@.len() ==> (resolve_path(context, (#[trigger] fs@[i]).0@) matches Some(v)
                && json_eq(v, fs@[i].1)),
    ensures
        filters_match(context, filters),
{
}

/// Adding a filter narrows a rule: the longer filter list matches a context exactly
/// when the shorter one does and the added entry holds of it. Adding an entry can
/// never turn a refused context into a matching one.
pub proof fn law_adding_a_filter_narrows(
    context: JsonValue,
    shorter: JsonValue,
    longer: JsonValue,
    path: Seq<char>,
    expected: JsonValue,
)
    requires
        shorter matches JsonValue::Object(fs),
        longer matches JsonValue::Object(gs),
        longer->Object_0@.len() == shorter->Object_0@.len() + 1,
        forall|i: int|
            0 <= i < shorter->Object_0@.len() ==> #[trigger] longer->Object_0@[i]
                == shorter->Object_0@[i],
        longer->Object_0@.last().0@ == path,
        longer->Object_0@.last().1 == expected,
    ensures
        filters_match(context, longer) == (filters_match(context, shorter) && (resolve_path(
            context,
            path,
        ) matches Some(v) && json_eq(v, expected))),
        filters_match(context, longer) ==> filters_match(context, shorter),
{
    let fs = shorter->Object_0@;
    let gs = longer->Object_0@;
    if filters_match(context, longer) {
        assert forall|i: int| 0 <= i < fs.len() implies (match resolve_path(
            context,
            (#[trigger] fs[i]).0@,
        ) {
            Some(v) => json_eq(v, fs[i].1),
            None => false,
        }) by {
            assert(gs[i] == fs[i]);
        }
        assert(gs[gs.len() - 1] == gs.last());
    }
    if filters_match(context, shorter) && (resolve_path(context, path) matches Some(v) && json_eq(
        v,
        expected,
    )) {
        assert forall|i: int| 0 <= i < gs.len() implies (match resolve_path(
            context,
            (#[trigger] gs[i]).0@,
        ) {
            Some(v) => json_eq(v, gs[i].1),
            None => false,
        }) by {
            if i < fs.len() {
                assert(gs[i] == fs[i]);
            } else {
                assert(gs[i] == gs.last());
            }
        }
    }
}

/// The text a value shows in a rendered template: strings as they are, nothing for
/// null, and the JSON text of anything else.
pub open spec fn display_text(v: JsonValue) -> Seq<char> {
    match v {
        JsonValue::String(s) => s@,
        JsonValue::Null => seq![],
        _ => serde_json_text(v),
    }
}

/// What a `{{path}}` placeholder becomes: the value at the trimmed path, or nothing.
pub open spec fn placeholder_text(ctx: JsonValue, inner: Seq<char>) -> Seq<char> {
    match resolve_path(ctx, trim_spec(inner)) {
        Some(v) => display_text(v),
        None => seq![],
    }
}

/// Renders the template from position `pos` on: each `{{path}}` is replaced by the
/// context value at `path`; an unterminated `{{` and everything after it stay as written.
pub open spec fn render_from(t: Seq<char>, pos: int, ctx: JsonValue) -> Seq<char>
    decreases t.len() - pos,
{
    if pos < 0 || pos > t.len() {
        seq![]
    } else {
        match find_pair_from(t, '{', pos) {
            None => t.subrange(pos, t.len() as int),
            Some(s) => {
                proof {
                    lemma_find_pair_bounds(t, '{', pos);
                    lemma_find_pair_bounds(t, '}', s + 2);
                }
                t.subrange(pos, s) + match find_pair_from(t, '}', s + 2) {
                    None => seq!['{', '{'] + t.subrange(s + 2, t.len() as int),
                    Some(e) => placeholder_text(ctx, t.subrange(s + 2, e)) + render_from(
                        t,
                        e + 2,
                        ctx,
                    ),
                }
            },
        }
    }
}

/// The rendering of a whole template.
pub open spec fn render(t: Seq<char>, ctx: JsonValue) -> Seq<char> {
    render_from(t, 0, ctx)
}

fn find_pair(t: &str, c: char, from: usize) -> (r: Option<usize>)
    requires
        from <= t@.len(),
    ensures
        match r {
            Some(x) => find_pair_from(t@, c, from as int) == Some(x as int),
            None => find_pair_from(t@, c, from as int) is None,
        },
{
    let n = t.unicode_len();
    let mut i: usize = from;
    while n > 0 && i < n - 1
        invariant
            n == t@.len(),
            from <= i <= n,
            find_pair_from(t@, c, from as int) == find_pair_from(t@, c, i as int),
        decreases n - i,
    {
        if t.get_char(i) == c && t.get_char(i + 1) == c {
            return Some(i);
        }
        i = i + 1;
    }
    None
}

/// The text a value shows inside a rendered template.
pub fn display_value(value: &JsonValue) -> (r: String)
    ensures
        r@ == display_text(*value),
{
    match value {
        JsonValue::String(s) => s.clone(),
        JsonValue::Null => String::new(),
        _ => json_text(value),
    }
}

/// Replaces every `{{path}}` placeholder of the template with the context value at
/// `path` (trimmed); unknown paths give nothing; an unterminated `{{` is kept as is.
pub fn render_template(template: &str, context: &JsonValue) -> (r: String)
    ensures
        r@ == render(template@, *context),
{
    let n = template.unicode_len();
    let mut result = String::new();
    let mut pos: usize = 0;
    loop
        invariant
            n == template@.len(),
            pos <= n,
            render(template@, *context) == result@ + render_from(template@, pos as int, *context),
        decreases n - pos,
    {
        let ghost t = template@;
        match find_pair(template, '{', pos) {
            None => {
                result.append(template.substring_char(pos, n));
                return result;
            },
            Some(s) => {
                proof {
                    lemma_find_pair_bounds(t, '{', pos as int);
                }
                result.append(template.substring_char(pos, s));
                match find_pair(template, '}', s + 2) {
                    None => {
                        result.append("{{");
                        result.append(template.substring_char(s + 2, n));
                        proof {
                            reveal_strlit("{{");
                            assert("{{"@ =~= seq!['{', '{']);
                        }
                        return result;
                    },
                    Some(e) => {
                        proof {
                            lemma_find_pair_bounds(t, '}', s + 2);
                        }
                        let inner = template.substring_char(s + 2, e);
                        let key = trim(inner);
                        match get_path(context, key) {
                            Some(v) => {
                                let shown = display_value(v);
                                result.append(shown.as_str());
                            },
                            None => {},
                        }
                        pos = e + 2;
                    },
                }
            },
        }
    }
}

/// One action or reaction that a service offers.
#[derive(Debug, Clone, Copy)]
pub struct ServiceCapability {
    pub name: &'static str,
    pub description: &'static str,
}

/// A service of the catalog, with the actions (triggers) and reactions it offers.
#[derive(Debug)]
pub struct ServiceCatalogEntry {
    pub name: &'static str,
    pub actions: Vec<ServiceCapability>,
    pub reactions: Vec<ServiceCapability>,
}

pub open spec fn is_capability(c: ServiceCapability, name: Seq<char>, description: Seq<char>) -> bool {
    c.name@ == name && c.description@ == description
}

/// The catalog of services: GitHub offers the `workflow_run_failed` action; VIGIL
/// offers the `create_incident` reaction; HTTP offers the `send_post` reaction.
pub open spec fn is_service_catalog(r: Seq<ServiceCatalogEntry>) -> bool {
    &&& r.len() == 3
    &&& r[0].name@ == "github"@
    &&& r[0].actions@.len() == 1
    &&& is_capability(
        r[0].actions@[0],
        "workflow_run_failed"@,
        "A CI workflow run completes with a failure conclusion"@,
    )
    &&& r[0].reactions@.len() == 0
    &&& r[1].name@ == "vigil"@
    &&& r[1].actions@.len() == 0
    &&& r[1].reactions@.len() == 1
    &&& is_capability(
        r[1].reactions@[0],
        "create_incident"@,
        "Create a VIGIL incident with configurable severity and title"@,
    )
    &&& r[2].name@ == "http"@
    &&& r[2].actions@.len() == 0
    &&& r[2].reactions@.len() == 1
    &&& is_capability(r[2].reactions@[0], "send_post"@, "Send a POST request to an external URL"@)
}

/// The services the rule engine knows.
pub fn service_catalog() -> (r: Vec<ServiceCatalogEntry>)
    ensures
        is_service_catalog(r@),
{
    let mut github_actions: Vec<ServiceCapability> = Vec::new();
    github_actions.push(
        ServiceCapability {
            name: "workflow_run_failed",
            description: "A CI workflow run completes with a failure conclusion",
        },
    );
    let mut vigil_reactions: Vec<ServiceCapability> = Vec::new();
    vigil_reactions.push(
        ServiceCapability {
            name: "create_incident",
            description: "Create a VIGIL incident with configurable severity and title",
        },
    );
    let mut http_reactions: Vec<ServiceCapability> = Vec::new();
    http_reactions.push(
        ServiceCapability {
            name: "send_post",
            description: "Send a POST request to an external URL",
        },
    );
    let mut catalog: Vec<ServiceCatalogEntry> = Vec::new();
    catalog.push(
        ServiceCatalogEntry { name: "github", actions: github_actions, reactions: Vec::new() },
    );
    catalog.push(
        ServiceCatalogEntry { name: "vigil", actions: Vec::new(), reactions: vigil_reactions },
    );
    catalog.push(ServiceCatalogEntry { name: "http", actions: Vec::new(), reactions: http_reactions });
    catalog
}

impl Rule {
    /// Whether the rule fires for an event of the given type with the given context.
    pub fn matches(&self, event_type: &str, context: &JsonValue) -> (r: bool)
        ensures
            r == (self.enabled && self.trigger_event@ == event_type@ && filters_match(
                *context,
                self.trigger_filters,
            )),
    {
        self.enabled && str_eq(self.trigger_event.as_str(), event_type) && matches_filters(
            context,
            &self.trigger_filters,
        )
    }
}

} // verus!

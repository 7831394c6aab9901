use vstd::prelude::*;

use crate::text::{
    chars_equal, chars_of, views_of, parse_u64, parse_u64_spec, split, split_chars, string_of, trim,
    trim_bounds,
};

verus! {

/// The kind of data that a rate limit applies to.
#[derive(Clone, Copy, Debug, PartialEq, Eq, Structural)]
pub enum DataCategory {
    Default,
    Error,
    Transaction,
    Security,
    Attachment,
    Session,
    Unknown,
}

/// The category that a name stands for; names are compared case-sensitively.
pub open spec fn category_of_name(name: Seq<char>) -> DataCategory {
    if name == "default"@ {
        DataCategory::Default
    } else if name == "error"@ {
        DataCategory::Error
    } else if name == "transaction"@ {
        DataCategory::Transaction
    } else if name == "security"@ {
        DataCategory::Security
    } else if name == "attachment"@ {
        DataCategory::Attachment
    } else if name == "session"@ {
        DataCategory::Session
    } else {
        DataCategory::Unknown
    }
}

fn category_from_chars(name: &Vec<char>) -> (r: DataCategory)
    ensures
        r == category_of_name(name@),
{
    if chars_equal(name, "default") {
        DataCategory::Default
    } else if chars_equal(name, "error") {
        DataCategory::Error
    } else if chars_equal(name, "transaction") {
        DataCategory::Transaction
    } else if chars_equal(name, "security") {
        DataCategory::Security
    } else if chars_equal(name, "attachment") {
        DataCategory::Attachment
    } else if chars_equal(name, "session") {
        DataCategory::Session
    } else {
        DataCategory::Unknown
    }
}

impl DataCategory {
    /// The category that `name` stands for, `Unknown` for any other name.
    pub fn from_name(name: &str) -> (r: DataCategory)
        ensures
            r == category_of_name(name@),
    {
        category_from_chars(&chars_of(name))
    }
}

/// The scope that a quota is declared for.
#[derive(Clone, Copy, Debug, PartialEq, Eq, Structural)]
pub enum QuotaScope {
    Organization,
    Project,
    Key,
    Unknown,
}

/// The quota scope that a name stands for; names are compared case-sensitively.
pub open spec fn quota_scope_of_name(name: Seq<char>) -> QuotaScope {
    if name == "organization"@ {
        QuotaScope::Organization
    } else if name == "project"@ {
        QuotaScope::Project
    } else if name == "key"@ {
        QuotaScope::Key
    } else {
        QuotaScope::Unknown
    }
}

fn quota_scope_from_chars(name: &Vec<char>) -> (r: QuotaScope)
    ensures
        r == quota_scope_of_name(name@),
{
    if chars_equal(name, "organization") {
        QuotaScope::Organization
    } else if chars_equal(name, "project") {
        QuotaScope::Project
    } else if chars_equal(name, "key") {
        QuotaScope::Key
    } else {
        QuotaScope::Unknown
    }
}

impl QuotaScope {
    /// The scope that `name` stands for, `Unknown` for any other name.
    pub fn from_name(name: &str) -> (r: QuotaScope)
        ensures
            r == quota_scope_of_name(name@),
    {
        quota_scope_from_chars(&chars_of(name))
    }
}

/// The identifiers that situate a request: its organization, project and key.
#[derive(Clone, Copy, Debug, PartialEq, Eq, Structural)]
pub struct Scoping {
    pub organization_id: u64,
    pub project_id: u64,
    pub key_id: u64,
}

/// The entity that a rate limit applies to.
#[derive(Clone, Copy, Debug, PartialEq, Eq, Structural)]
pub enum RateLimitScope {
    Organization(u64),
    Project(u64),
    Key(u64),
}

/// The entity of `scoping` that a quota scope selects; an unknown scope selects the key, the
/// most specific one.
pub open spec fn scope_for_quota(scoping: Scoping, scope: QuotaScope) -> RateLimitScope {
    match scope {
        QuotaScope::Organization => RateLimitScope::Organization(scoping.organization_id),
        QuotaScope::Project => RateLimitScope::Project(scoping.project_id),
        QuotaScope::Key => RateLimitScope::Key(scoping.key_id),
        QuotaScope::Unknown => RateLimitScope::Key(scoping.key_id),
    }
}

impl RateLimitScope {
    /// The entity of `scoping` that `scope` selects.
    pub fn for_quota(scoping: &Scoping, scope: QuotaScope) -> (r: RateLimitScope)
        ensures
            r == scope_for_quota(*scoping, scope),
    {
        match scope {
            QuotaScope::Organization => RateLimitScope::Organization(scoping.organization_id),
            QuotaScope::Project => RateLimitScope::Project(scoping.project_id),
            QuotaScope::Key => RateLimitScope::Key(scoping.key_id),
            QuotaScope::Unknown => RateLimitScope::Key(scoping.key_id),
        }
    }
}

/// One active rate limit.
#[derive(Clone, Debug, PartialEq)]
pub struct RateLimit {
    /// The categories it applies to; empty means all.
    pub categories: Vec<DataCategory>,
    pub scope: RateLimitScope,
    pub reason_code: Option<String>,
    /// Seconds until the limit expires.
    pub retry_after: u64,
}

/// What a `RateLimit` holds, as plain values.
pub struct RateLimitView {
    pub categories: Seq<DataCategory>,
    pub scope: RateLimitScope,
    pub reason_code: Option<Seq<char>>,
    pub retry_after: u64,
}

pub open spec fn opt_string_view(s: Option<String>) -> Option<Seq<char>> {
    match s {
        Some(x) => Some(x@),
        None => None,
    }
}

impl View for RateLimit {
    type V = RateLimitView;

    open spec fn view(&self) -> RateLimitView {
        RateLimitView {
            categories: self.categories@,
            scope: self.scope,
            reason_code: opt_string_view(self.reason_code),
            retry_after: self.retry_after,
        }
    }
}

/// A list of rate limits, in the order they were added.
#[derive(Clone, Debug, PartialEq)]
pub struct RateLimits {
    limits: Vec<RateLimit>,
}

impl View for RateLimits {
    type V = Seq<RateLimitView>;

    closed spec fn view(&self) -> Seq<RateLimitView> {
        self.limits@.map_values(|l: RateLimit| l@)
    }
}

impl RateLimits {
    /// An empty list.
    pub fn new() -> (r: RateLimits)
        ensures
            r@ == Seq::<RateLimitView>::empty(),
    {
        let r = RateLimits { limits: Vec::new() };
        assert(r@ =~= Seq::<RateLimitView>::empty());
        r
    }

    /// Appends a limit.
    pub fn add(&mut self, limit: RateLimit)
        ensures
            final(self)@ == old(self)@.push(limit@),
    {
        self.limits.push(limit);
        assert(self@ =~= old(self)@.push(limit@));
    }

    /// Whether any limit is present.
    pub fn is_limited(&self) -> (r: bool)
        ensures
            r == (self@.len() > 0),
    {
        self.limits.len() > 0
    }

    /// The number of limits.
    pub fn len(&self) -> (r: usize)
        ensures
            r == self@.len(),
    {
        self.limits.len()
    }

    /// The limit at position `i`.
    pub fn get(&self, i: usize) -> (r: &RateLimit)
        requires
            i < self@.len(),
        ensures
            r@ == self@[i as int],
    {
        &self.limits[i]
    }
}

/// The names of a category list, empty names left out, mapped to categories.
pub open spec fn categories_of(names: Seq<Seq<char>>) -> Seq<DataCategory>
    decreases names.len(),
{
    if names.len() == 0 {
        Seq::empty()
    } else {
        let r = categories_of(names.drop_last());
        if names.last().len() == 0 {
            r
        } else {
            r.push(category_of_name(names.last()))
        }
    }
}

/// The `k`-th field of a quota, empty when it has fewer fields.
pub open spec fn field(fields: Seq<Seq<char>>, k: int) -> Seq<char> {
    if k < fields.len() {
        fields[k]
    } else {
        Seq::empty()
    }
}

/// One quota `retry_after:categories:scope:reason_code`, categories separated by `;`.
/// Fields after the fourth are ignored; a quota without a valid retry time is no quota.
pub open spec fn parse_quota(quota: Seq<char>, scoping: Scoping) -> Option<RateLimitView> {
    let fields = split(quota, ':');
    match parse_u64_spec(fields[0]) {
        None => None,
        Some(retry_after) => Some(
            RateLimitView {
                categories: categories_of(split(field(fields, 1), ';')),
                scope: scope_for_quota(scoping, quota_scope_of_name(field(fields, 2))),
                reason_code: if fields.len() > 3 { Some(fields[3]) } else { None },
                retry_after,
            },
        ),
    }
}

/// The limits of a list of comma-separated quotas, each trimmed; malformed ones are skipped.
pub open spec fn quotas_of(quotas: Seq<Seq<char>>, scoping: Scoping) -> Seq<RateLimitView>
    decreases quotas.len(),
{
    if quotas.len() == 0 {
        Seq::empty()
    } else {
        let r = quotas_of(quotas.drop_last(), scoping);
        match parse_quota(trim(quotas.last()), scoping) {
            Some(q) => r.push(q),
            None => r,
        }
    }
}

/// The limits that an `X-Sentry-Rate-Limits` header value declares.
pub open spec fn parse_rate_limits_spec(scoping: Scoping, header: Seq<char>) -> Seq<RateLimitView> {
    quotas_of(split(header, ','), scoping)
}

fn parse_categories(names: &Vec<Vec<char>>) -> (r: Vec<DataCategory>)
    ensures
        r@ == categories_of(views_of(names@)),
{
    let ghost views = views_of(names@);
    let mut r: Vec<DataCategory> = Vec::new();
    let mut i: usize = 0;
    while i < names.len()
        invariant
            i <= names@.len(),
            views == views_of(names@),
            r@ == categories_of(views.subrange(0, i as int)),
        decreases names@.len() - i,
    {
        assert(views.subrange(0, i + 1).drop_last() =~= views.subrange(0, i as int));
        assert(views[i as int] == names@[i as int]@);
        assert(views.subrange(0, i + 1).last() == names@[i as int]@);
        if names[i].len() > 0 {
            r.push(category_from_chars(&names[i]));
        }
        i += 1;
    }
    assert(views.subrange(0, i as int) =~= views);
    r
}

fn parse_quota_exec(s: &Vec<char>, from: usize, to: usize, scoping: &Scoping) -> (r: Option<RateLimit>)
    requires
        from <= to <= s@.len(),
    ensures
        match r {
            Some(l) => parse_quota(s@.subrange(from as int, to as int), *scoping) == Some(l@),
            None => parse_quota(s@.subrange(from as int, to as int), *scoping).is_none(),
        },
{
    let ghost q = s@.subrange(from as int, to as int);
    let fields = split_chars(s, from, to, ':');
    let ghost fv = split(q, ':');
    proof {
        crate::text::lemma_split_nonempty(q, ':');
        assert(fields@[0]@ == fv[0]);
        assert(fields@[0]@.subrange(0, fields@[0]@.len() as int) =~= fields@[0]@);
    }
    let retry_after = match parse_u64(&fields[0], 0, fields[0].len()) {
        Some(v) => v,
        None => return None,
    };
    let categories = if fields.len() > 1 {
        assert(fields@[1]@ == field(fv, 1));
        let names = split_chars(&fields[1], 0, fields[1].len(), ';');
        assert(fields@[1]@.subrange(0, fields@[1]@.len() as int) =~= fields@[1]@);
        assert(views_of(names@) =~= split(field(fv, 1), ';'));
        let cats = parse_categories(&names);
        assert(cats@ == categories_of(split(field(fv, 1), ';')));
        cats
    } else {
        proof {
            assert(field(fv, 1) =~= Seq::<char>::empty());
            assert(split(Seq::<char>::empty(), ';') == seq![Seq::<char>::empty()]);
            assert(seq![Seq::<char>::empty()].drop_last() =~= Seq::<Seq<char>>::empty());
            let one = seq![Seq::<char>::empty()];
            assert(one.last() == Seq::<char>::empty());
            assert(categories_of(one.drop_last()) == Seq::<DataCategory>::empty());
            assert(categories_of(one) == Seq::<DataCategory>::empty());
        }
        Vec::new()
    };
    let quota_scope = if fields.len() > 2 {
        assert(fields@[2]@ == field(fv, 2));
        quota_scope_from_chars(&fields[2])
    } else {
        proof {
            assert(field(fv, 2) =~= Seq::<char>::empty());
            reveal_strlit("organization");
            reveal_strlit("project");
            reveal_strlit("key");
        }
        QuotaScope::Unknown
    };
    let reason_code = if fields.len() > 3 {
        assert(fields@[3]@ == fv[3]);
        Some(string_of(&fields[3]))
    } else {
        None
    };
    let scope = RateLimitScope::for_quota(scoping, quota_scope);
    let limit = RateLimit { categories, scope, reason_code, retry_after };
    proof {
        let want = parse_quota(q, *scoping).unwrap();
        assert(limit@.categories == want.categories);
        assert(limit@.scope == want.scope);
        assert(limit@.reason_code == want.reason_code);
        assert(limit@.retry_after == want.retry_after);
    }
    Some(limit)
}

/// Parses an `X-Sentry-Rate-Limits` header value in the most lenient way: quotas that cannot
/// be read are skipped, so an empty or malformed header gives no limits.
pub fn parse_rate_limits(scoping: &Scoping, header: &str) -> (r: RateLimits)
    ensures
        r@ == parse_rate_limits_spec(*scoping, header@),
{
    let chars = chars_of(header);
    let quotas = split_chars(&chars, 0, chars.len(), ',');
    assert(chars@.subrange(0, chars@.len() as int) =~= header@);
    let ghost qv = split(header@, ',');
    let mut r = RateLimits::new();
    let mut i: usize = 0;
    while i < quotas.len()
        invariant
            i <= quotas@.len(),
            quotas@.len() == qv.len(),
            forall|k: int| 0 <= k < quotas@.len() ==> #[trigger] quotas@[k]@ == qv[k],
            r@ == quotas_of(qv.subrange(0, i as int), *scoping),
        decreases quotas@.len() - i,
    {
        assert(qv.subrange(0, i + 1).drop_last() =~= qv.subrange(0, i as int));
        assert(quotas@[i as int]@ == qv[i as int]);
        let (a, b) = trim_bounds(&quotas[i], 0, quotas[i].len());
        assert(quotas@[i as int]@.subrange(0, quotas@[i as int]@.len() as int) =~= qv[i as int]);
        match parse_quota_exec(&quotas[i], a, b, scoping) {
            Some(limit) => r.add(limit),
            None => {},
        }
        i += 1;
    }
    assert(qv.subrange(0, i as int) =~= qv);
    r
}

} // verus!

//! Requests to the ephemeris service: bodies, addressing and queries.

pub mod bodies;
pub mod ephemeris;
pub mod presets;

use vstd::prelude::*;

use crate::wire::{
    decimal, decimal_text, encode_query, form_encode, form_encode_ascii, is_ascii_text, pair_text,
    pairs_view, query_text, TextPair,
};
use bodies::MajorBody;
use ephemeris::common::{Common, CommonBuilder, CommonBuilderError};
use ephemeris::elements::{Elements, ElementsBuilder};
use ephemeris::vectors::{Vectors, VectorsBuilder};
use ephemeris::EphemType;

verus! {

/// A flag as the service writes it: `yes` or `no`.
#[derive(Debug, Clone, Copy, PartialEq, Eq, Structural, PartialOrd, Ord)]
pub enum HzBool {
    No,
    Yes,
}

impl HzBool {
    /// The flag for `b`.
    pub open spec fn spec_from_bool(b: bool) -> HzBool {
        if b {
            HzBool::Yes
        } else {
            HzBool::No
        }
    }

    /// The wire token of the flag.
    pub open spec fn token(self) -> Seq<char> {
        match self {
            HzBool::Yes => seq!['y', 'e', 's'],
            HzBool::No => seq!['n', 'o'],
        }
    }

    /// The wire token of the flag.
    pub fn as_str(&self) -> (r: &'static str)
        ensures
            r@ == self.token(),
    {
        match self {
            HzBool::Yes => {
                proof { reveal_strlit("yes"); }
                "yes"
            },
            HzBool::No => {
                proof { reveal_strlit("no"); }
                "no"
            },
        }
    }
}

impl From<bool> for HzBool {
    fn from(b: bool) -> (r: HzBool) {
        if b {
            HzBool::Yes
        } else {
            HzBool::No
        }
    }
}

impl vstd::std_specs::convert::FromSpecImpl<bool> for HzBool {
    open spec fn obeys_from_spec() -> bool {
        true
    }

    open spec fn from_spec(b: bool) -> HzBool {
        HzBool::spec_from_bool(b)
    }
}

/// A body: one of the registry, or an identifier written as given.
#[derive(Debug, PartialEq, Eq)]
pub enum Body {
    MajorBody(MajorBody),
    /// Passed to the service verbatim, unchecked.
    Custom(String),
}

impl Body {
    /// The wire token of the body: its code in decimal, or the text as given.
    pub open spec fn token(self) -> Seq<char> {
        match self {
            Body::MajorBody(b) => decimal(b.spec_code() as nat),
            Body::Custom(s) => s@,
        }
    }

    /// The wire token of the body.
    pub fn to_text(&self) -> (r: String)
        ensures
            r@ == self.token(),
    {
        match self {
            Body::MajorBody(b) => decimal_text(b.code() as u64),
            Body::Custom(s) => s.clone(),
        }
    }
}

impl Clone for Body {
    fn clone(&self) -> (r: Body)
        ensures
            r == *self,
    {
        match self {
            Body::MajorBody(b) => Body::MajorBody(*b),
            Body::Custom(s) => Body::Custom(s.clone()),
        }
    }
}

impl From<MajorBody> for Body {
    fn from(b: MajorBody) -> (r: Body) {
        Body::MajorBody(b)
    }
}

impl vstd::std_specs::convert::FromSpecImpl<MajorBody> for Body {
    open spec fn obeys_from_spec() -> bool {
        true
    }

    open spec fn from_spec(b: MajorBody) -> Body {
        Body::MajorBody(b)
    }
}

/// The target of a query.
#[derive(Debug, PartialEq, Eq)]
pub enum Command {
    Body(Body),
    /// Passed to the service verbatim, unchecked.
    Custom(String),
}

impl Command {
    /// The wire token of the target.
    pub open spec fn token(self) -> Seq<char> {
        match self {
            Command::Body(b) => b.token(),
            Command::Custom(s) => s@,
        }
    }

    /// The wire token of the target.
    pub fn to_text(&self) -> (r: String)
        ensures
            r@ == self.token(),
    {
        match self {
            Command::Body(b) => b.to_text(),
            Command::Custom(s) => s.clone(),
        }
    }
}

impl Clone for Command {
    fn clone(&self) -> (r: Command)
        ensures
            r == *self,
    {
        match self {
            Command::Body(b) => Command::Body(b.clone()),
            Command::Custom(s) => Command::Custom(s.clone()),
        }
    }
}

impl From<Body> for Command {
    fn from(b: Body) -> (r: Command) {
        Command::Body(b)
    }
}

impl vstd::std_specs::convert::FromSpecImpl<Body> for Command {
    open spec fn obeys_from_spec() -> bool {
        true
    }

    open spec fn from_spec(b: Body) -> Command {
        Command::Body(b)
    }
}

impl From<MajorBody> for Command {
    fn from(b: MajorBody) -> (r: Command) {
        Command::Body(Body::MajorBody(b))
    }
}

impl vstd::std_specs::convert::FromSpecImpl<MajorBody> for Command {
    open spec fn obeys_from_spec() -> bool {
        true
    }

    open spec fn from_spec(b: MajorBody) -> Command {
        Command::Body(Body::MajorBody(b))
    }
}

/// The observing site at a center body.
#[derive(Debug, Clone, Copy, PartialEq, Eq, Structural)]
pub enum Site {
    /// The center body itself; written `500`.
    Center,
    Custom(u16),
}

impl Site {
    /// The wire token of the site.
    pub open spec fn token(self) -> Seq<char> {
        match self {
            Site::Center => seq!['5', '0', '0'],
            Site::Custom(n) => decimal(n as nat),
        }
    }

    /// The wire token of the site.
    pub fn to_text(&self) -> (r: String)
        ensures
            r@ == self.token(),
    {
        match self {
            Site::Center => {
                proof { reveal_strlit("500"); }
                String::from_str("500")
            },
            Site::Custom(n) => decimal_text(*n as u64),
        }
    }
}

impl Default for Site {
    fn default() -> (r: Site)
        ensures
            r == Site::Center,
    {
        Site::Center
    }
}

impl From<u16> for Site {
    fn from(n: u16) -> (r: Site) {
        Site::Custom(n)
    }
}

impl vstd::std_specs::convert::FromSpecImpl<u16> for Site {
    open spec fn obeys_from_spec() -> bool {
        true
    }

    open spec fn from_spec(n: u16) -> Site {
        Site::Custom(n)
    }
}

/// A reference center: an observing site at a body, written `site@body`.
#[derive(Debug, PartialEq, Eq)]
pub struct Center {
    site: Site,
    body: Body,
}

impl Center {
    /// The site of the center.
    pub closed spec fn spec_site(self) -> Site {
        self.site
    }

    /// The body of the center.
    pub closed spec fn spec_body(self) -> Body {
        self.body
    }

    /// The center at `body`, observed from `site`.
    pub closed spec fn spec_new(site: Site, body: Body) -> Center {
        Center { site, body }
    }

    /// A center is made of its site and its body.
    pub proof fn lemma_new_parts(site: Site, body: Body)
        ensures
            Center::spec_new(site, body).spec_site() == site,
            Center::spec_new(site, body).spec_body() == body,
    {
    }

    /// The wire token of the center: `{site}@{body}`.
    pub open spec fn token(self) -> Seq<char> {
        self.spec_site().token() + seq!['@'] + self.spec_body().token()
    }

    /// The center at `body`, observed from `site`.
    pub fn new(site: Site, body: Body) -> (r: Center)
        ensures
            r == Center::spec_new(site, body),
    {
        Center { site, body }
    }

    /// The wire token of the center.
    pub fn to_text(&self) -> (r: String)
        ensures
            r@ == self.token(),
    {
        let mut s = self.site.to_text();
        proof { reveal_strlit("@"); }
        s.append("@");
        let b = self.body.to_text();
        s.append(b.as_str());
        s
    }
}

impl Clone for Center {
    fn clone(&self) -> (r: Center)
        ensures
            r == *self,
    {
        Center { site: self.site, body: self.body.clone() }
    }
}

impl From<Body> for Center {
    fn from(body: Body) -> (r: Center) {
        Center { site: Site::Center, body }
    }
}

impl vstd::std_specs::convert::FromSpecImpl<Body> for Center {
    open spec fn obeys_from_spec() -> bool {
        true
    }

    open spec fn from_spec(body: Body) -> Center {
        Center::spec_new(Site::Center, body)
    }
}

impl From<MajorBody> for Center {
    fn from(body: MajorBody) -> (r: Center) {
        Center { site: Site::Center, body: Body::MajorBody(body) }
    }
}

impl vstd::std_specs::convert::FromSpecImpl<MajorBody> for Center {
    open spec fn obeys_from_spec() -> bool {
        true
    }

    open spec fn from_spec(body: MajorBody) -> Center {
        Center::spec_new(Site::Center, Body::MajorBody(body))
    }
}

impl From<(Site, Body)> for Center {
    fn from(p: (Site, Body)) -> (r: Center) {
        Center { site: p.0, body: p.1 }
    }
}

impl vstd::std_specs::convert::FromSpecImpl<(Site, Body)> for Center {
    open spec fn obeys_from_spec() -> bool {
        true
    }

    open spec fn from_spec(p: (Site, Body)) -> Center {
        Center::spec_new(p.0, p.1)
    }
}

impl From<(u16, MajorBody)> for Center {
    fn from(p: (u16, MajorBody)) -> (r: Center) {
        Center { site: Site::Custom(p.0), body: Body::MajorBody(p.1) }
    }
}

impl vstd::std_specs::convert::FromSpecImpl<(u16, MajorBody)> for Center {
    open spec fn obeys_from_spec() -> bool {
        true
    }

    open spec fn from_spec(p: (u16, MajorBody)) -> Center {
        Center::spec_new(Site::Custom(p.0), Body::MajorBody(p.1))
    }
}

/// The parameters particular to one ephemeris type.
#[derive(Debug, Clone, Copy, PartialEq, Eq, Structural)]
pub enum Ephemeris {
    Elements(Elements),
    Vectors(Vectors),
}

impl Ephemeris {
    /// The fields on the wire, in order.
    pub open spec fn spec_fields(self) -> Seq<TextPair> {
        match self {
            Ephemeris::Elements(e) => e.spec_fields(),
            Ephemeris::Vectors(v) => v.spec_fields(),
        }
    }

    /// Appends the fields to `out`, in order.
    pub fn write_fields(&self, out: &mut Vec<(String, String)>)
        ensures
            pairs_view(final(out)@) == pairs_view(old(out)@) + self.spec_fields(),
    {
        match self {
            Ephemeris::Elements(e) => e.write_fields(out),
            Ephemeris::Vectors(v) => v.write_fields(out),
        }
    }
}

/// A finished query: the common parameters and those of one ephemeris type.
#[derive(Debug, PartialEq, Eq)]
pub struct Query {
    common: Common,
    specific: Ephemeris,
}

impl Query {
    /// The common parameters.
    pub closed spec fn spec_common(self) -> Common {
        self.common
    }

    /// The parameters of the ephemeris type.
    pub closed spec fn spec_specific(self) -> Ephemeris {
        self.specific
    }

    /// The fields on the wire, in order: the common block, then the block of
    /// the ephemeris type.
    pub open spec fn spec_fields(self) -> Seq<TextPair> {
        self.spec_common().spec_fields() + self.spec_specific().spec_fields()
    }

    /// Two queries say the same.
    pub open spec fn equiv(self, other: Query) -> bool {
        &&& self.spec_common().equiv(other.spec_common())
        &&& self.spec_specific() == other.spec_specific()
    }

    /// The fields of the query on the wire, in order.
    pub fn fields(&self) -> (r: Vec<(String, String)>)
        ensures
            pairs_view(r@) == self.spec_fields(),
    {
        let mut out: Vec<(String, String)> = Vec::new();
        proof {
            assert(pairs_view(out@) =~= Seq::<TextPair>::empty());
        }
        self.common.write_fields(&mut out);
        self.specific.write_fields(&mut out);
        assert(pairs_view(out@) =~= self.spec_fields());
        out
    }

    /// The query as the service reads it: `key=value` items in order, joined
    /// by `&`, with keys and values form-encoded.
    pub fn to_query_string(&self) -> (r: String)
        ensures
            r@ == query_text(self.spec_fields()),
    {
        let pairs = self.fields();
        encode_query(&pairs)
    }

    /// A builder for an orbital-elements query.
    pub fn elements() -> (r: QueryBuilder<ElementsBuilder>)
        ensures
            r.common.is_fresh(),
            r.common.spec_ephem_type() == Some(EphemType::Elements),
            r.specific.is_default(),
    {
        let mut common = CommonBuilder::new();
        common.ephem_type(EphemType::Elements);
        QueryBuilder { common, specific: ElementsBuilder::new() }
    }

    /// A builder for a vectors query.
    pub fn vectors() -> (r: QueryBuilder<VectorsBuilder>)
        ensures
            r.common.is_fresh(),
            r.common.spec_ephem_type() == Some(EphemType::Vectors),
            r.specific.is_default(),
    {
        let mut common = CommonBuilder::new();
        common.ephem_type(EphemType::Vectors);
        QueryBuilder { common, specific: VectorsBuilder::new() }
    }
}

/// Accumulates a query. Made by [`Query::elements`] or [`Query::vectors`].
pub struct QueryBuilder<T> {
    pub common: CommonBuilder,
    pub specific: T,
}

/// Why a query could not be built.
#[derive(Debug, Clone, Copy, PartialEq, Eq)]
pub enum QueryBuilderError {
    CommonBuilderError(CommonBuilderError),
}

impl QueryBuilderError {
    /// The name of the field that was never set.
    pub open spec fn spec_field(self) -> Seq<char> {
        match self {
            QueryBuilderError::CommonBuilderError(e) => e.spec_field(),
        }
    }
}

impl From<CommonBuilderError> for QueryBuilderError {
    fn from(e: CommonBuilderError) -> (r: QueryBuilderError) {
        QueryBuilderError::CommonBuilderError(e)
    }
}

impl vstd::std_specs::convert::FromSpecImpl<CommonBuilderError> for QueryBuilderError {
    open spec fn obeys_from_spec() -> bool {
        true
    }

    open spec fn from_spec(e: CommonBuilderError) -> QueryBuilderError {
        QueryBuilderError::CommonBuilderError(e)
    }
}

impl QueryBuilder<ElementsBuilder> {
    /// What building yields: a query of the set common fields and the
    /// elements parameters, or the first required field that is not set.
    pub open spec fn build_post(self, r: Result<Query, QueryBuilderError>) -> bool {
        &&& r is Ok <==> self.common.first_missing() is None
        &&& r matches Ok(q) ==> {
            &&& self.common.builds(q.spec_common())
            &&& q.spec_specific() matches Ephemeris::Elements(e) && self.specific.builds(e)
        }
        &&& r matches Err(e) ==> self.common.first_missing() == Some(e.spec_field())
    }

    /// Builds the query; the builder is left as it was.
    pub fn build(&self) -> (r: Result<Query, QueryBuilderError>)
        ensures
            self.build_post(r),
    {
        match self.common.build() {
            Ok(common) => Ok(Query { common, specific: Ephemeris::Elements(self.specific.build()) }),
            Err(e) => Err(QueryBuilderError::from(e)),
        }
    }
}

impl QueryBuilder<VectorsBuilder> {
    /// What building yields: a query of the set common fields and the
    /// vectors parameters, or the first required field that is not set.
    pub open spec fn build_post(self, r: Result<Query, QueryBuilderError>) -> bool {
        &&& r is Ok <==> self.common.first_missing() is None
        &&& r matches Ok(q) ==> {
            &&& self.common.builds(q.spec_common())
            &&& q.spec_specific() matches Ephemeris::Vectors(v) && self.specific.builds(v)
        }
        &&& r matches Err(e) ==> self.common.first_missing() == Some(e.spec_field())
    }

    /// Builds the query; the builder is left as it was.
    pub fn build(&self) -> (r: Result<Query, QueryBuilderError>)
        ensures
            self.build_post(r),
    {
        match self.common.build() {
            Ok(common) => Ok(Query { common, specific: Ephemeris::Vectors(self.specific.build()) }),
            Err(e) => Err(QueryBuilderError::from(e)),
        }
    }
}

/// Building an elements query twice from the same builder gives queries that
/// say the same and are written identically on the wire, or fails twice on
/// the same field.
pub proof fn lemma_elements_build_repeatable(
    b: QueryBuilder<ElementsBuilder>,
    r1: Result<Query, QueryBuilderError>,
    r2: Result<Query, QueryBuilderError>,
)
    requires
        b.build_post(r1),
        b.build_post(r2),
    ensures
        r1 is Ok <==> r2 is Ok,
        r1 is Ok && r2 is Ok ==> r1.unwrap().equiv(r2.unwrap()) && r1.unwrap().spec_fields()
            == r2.unwrap().spec_fields(),
        r1 is Err && r2 is Err ==> r1->Err_0.spec_field() == r2->Err_0.spec_field(),
{
    if r1 is Ok && r2 is Ok {
        let (q1, q2) = (r1.unwrap(), r2.unwrap());
        ephemeris::elements::lemma_build_repeatable(
            b.specific,
            q1.spec_specific()->Elements_0,
            q2.spec_specific()->Elements_0,
        );
        ephemeris::common::lemma_build_repeatable(
            b.common,
            Ok(q1.spec_common()),
            Ok(q2.spec_common()),
        );
    }
}

/// Building a vectors query twice from the same builder gives queries that
/// say the same and are written identically on the wire, or fails twice on
/// the same field.
pub proof fn lemma_vectors_build_repeatable(
    b: QueryBuilder<VectorsBuilder>,
    r1: Result<Query, QueryBuilderError>,
    r2: Result<Query, QueryBuilderError>,
)
    requires
        b.build_post(r1),
        b.build_post(r2),
    ensures
        r1 is Ok <==> r2 is Ok,
        r1 is Ok && r2 is Ok ==> r1.unwrap().equiv(r2.unwrap()) && r1.unwrap().spec_fields()
            == r2.unwrap().spec_fields(),
        r1 is Err && r2 is Err ==> r1->Err_0.spec_field() == r2->Err_0.spec_field(),
{
    if r1 is Ok && r2 is Ok {
        let (q1, q2) = (r1.unwrap(), r2.unwrap());
        ephemeris::vectors::lemma_build_repeatable(
            b.specific,
            q1.spec_specific()->Vectors_0,
            q2.spec_specific()->Vectors_0,
        );
        ephemeris::common::lemma_build_repeatable(
            b.common,
            Ok(q1.spec_common()),
            Ok(q2.spec_common()),
        );
    }
}

/// Under any two keys, the flags made from `true` and `false` are written
/// `yes` and `no`.
pub proof fn lemma_flag_pair(k1: Seq<char>, k2: Seq<char>)
    ensures
        query_text(
            seq![
                (k1, HzBool::spec_from_bool(true).token()),
                (k2, HzBool::spec_from_bool(false).token()),
            ],
        ) == form_encode(k1) + seq!['='] + seq!['y', 'e', 's'] + seq!['&'] + form_encode(k2)
            + seq!['='] + seq!['n', 'o'],
{
    let yes = seq!['y', 'e', 's'];
    let no = seq!['n', 'o'];
    assert(is_ascii_text(yes));
    assert(is_ascii_text(no));
    reveal_with_fuel(form_encode_ascii, 4);
    assert(yes.drop_last() =~= seq!['y', 'e']);
    assert(yes.drop_last().drop_last() =~= seq!['y']);
    assert(yes.drop_last().drop_last().drop_last() =~= Seq::<char>::empty());
    assert(form_encode_ascii(yes) =~= yes);
    assert(no.drop_last() =~= seq!['n']);
    assert(no.drop_last().drop_last() =~= Seq::<char>::empty());
    assert(form_encode_ascii(no) =~= no);
    let pairs = seq![(k1, yes), (k2, no)];
    assert(pairs.drop_last() =~= seq![(k1, yes)]);
    assert(pairs.last() == (k2, no));
    assert(query_text(pairs.drop_last()) == pair_text((k1, yes)));
    assert(form_encode(yes) == yes);
    assert(form_encode(no) == no);
    assert(query_text(pairs) =~= form_encode(k1) + seq!['='] + yes + seq!['&'] + form_encode(k2)
        + seq!['='] + no);
}

} // verus!

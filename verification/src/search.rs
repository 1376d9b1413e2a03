//! What a search asks the backend: the address, the body of the request, and
//! the defaults that stand in for what the user left out.

use vstd::prelude::*;
use vstd::string::*;
use crate::json::{member_view, Json, JsonView};

verus! {

/// The settings of the search backend.
#[derive(Debug, PartialEq, Eq)]
pub struct YtmConfig {
    pub api_key: String,
    pub client_name: String,
    pub client_version: String,
    pub hl: String,
    pub gl: String,
    /// Request headers, each a name and a value. A name is looked up from
    /// the front; settings name each header once.
    pub headers: Vec<(String, String)>,
}

/// What is searched for when the user names nothing.
pub open spec fn default_query() -> Seq<char> {
    "jay chou"@
}

/// The filter that restricts a search to songs.
pub open spec fn songs_filter() -> Seq<char> {
    "EgWKAQIIAWoQEAQQCRAQEAMQChAVEA4QEQ=="@
}

/// How requests name their sender where the settings do not.
pub open spec fn default_user_agent() -> Seq<char> {
    "Mozilla/5.0"@
}

/// The address of a search, around the backend's key.
pub open spec fn search_address(api_key: Seq<char>) -> Seq<char> {
    "https://music.youtube.com/youtubei/v1/search?prettyPrint=false&key="@ + api_key
}

/// The value of the first of `headers` that is called `name`.
pub open spec fn header_value(headers: Seq<(String, String)>, name: Seq<char>) -> Option<Seq<char>>
    decreases headers.len(),
{
    if headers.len() == 0 {
        None
    } else if headers[0].0@ == name {
        Some(headers[0].1@)
    } else {
        header_value(headers.drop_first(), name)
    }
}

/// No two of `headers` share a name.
pub open spec fn distinct_names(headers: Seq<(String, String)>) -> bool {
    forall|i: int, j: int|
        #![trigger headers[i], headers[j]]
        0 <= i < j < headers.len() ==> headers[i].0@ != headers[j].0@
}

/// Among headers of distinct names the order does not matter to a lookup: a
/// name leads to the value of the one header that bears it.
pub proof fn lemma_header_value_by_name(headers: Seq<(String, String)>, at: int)
    requires
        distinct_names(headers),
        0 <= at < headers.len(),
    ensures
        header_value(headers, headers[at].0@) == Some(headers[at].1@),
    decreases headers.len(),
{
    if at > 0 {
        let rest = headers.drop_first();
        assert(headers[0].0@ != headers[at].0@);
        assert forall|i: int, j: int| 0 <= i < j < rest.len() implies rest[i].0@ != rest[j].0@ by {
            assert(rest[i] == headers[i + 1] && rest[j] == headers[j + 1]);
        }
        assert(rest[at - 1] == headers[at]);
        lemma_header_value_by_name(rest, at - 1);
    }
}

/// The body of a search request: who asks, in which language and region, for
/// what, and under which filter if any.
pub open spec fn search_request(
    client_name: Seq<char>,
    client_version: Seq<char>,
    hl: Seq<char>,
    gl: Seq<char>,
    query: Seq<char>,
    params: Option<Seq<char>>,
) -> JsonView {
    let client = JsonView::Object(
        seq![
            ("clientName"@, JsonView::Text(client_name)),
            ("clientVersion"@, JsonView::Text(client_version)),
            ("hl"@, JsonView::Text(hl)),
            ("gl"@, JsonView::Text(gl)),
        ],
    );
    let context = JsonView::Object(seq![("client"@, client)]);
    let always = seq![("context"@, context), ("query"@, JsonView::Text(query))];
    match params {
        Some(p) => JsonView::Object(always.push(("params"@, JsonView::Text(p)))),
        None => JsonView::Object(always),
    }
}

/// The search to run: what the user named, else the default.
pub fn search_query(named: Option<String>) -> (r: String)
    ensures
        r@ == match named {
            Some(q) => q@,
            None => default_query(),
        },
{
    match named {
        Some(q) => q,
        None => String::from_str("jay chou"),
    }
}

/// The filter that restricts a search to songs.
pub fn songs_params() -> (r: &'static str)
    ensures
        r@ == songs_filter(),
{
    "EgWKAQIIAWoQEAQQCRAQEAMQChAVEA4QEQ=="
}

fn text_member(name: &str, value: &str) -> (r: (String, Json))
    ensures
        member_view(r) == (name@, JsonView::Text(value@)),
{
    (String::from_str(name), Json::Text(String::from_str(value)))
}

fn object_of(members: Vec<(String, Json)>) -> (r: Json)
    ensures
        r@ == JsonView::Object(Seq::new(members@.len(), |i: int| member_view(members@[i]))),
{
    let r = Json::Object(members);
    assert(r@->Object_0 =~= Seq::new(members@.len(), |i: int| member_view(members@[i])));
    r
}

impl YtmConfig {
    /// The address a search is posted to.
    pub fn search_url(&self) -> (r: String)
        ensures
            r@ == search_address(self.api_key@),
    {
        String::from_str(
            "https://music.youtube.com/youtubei/v1/search?prettyPrint=false&key=",
        ).concat(self.api_key.as_str())
    }

    /// The body of the request that searches for `query`, restricted by
    /// `params` if given.
    pub fn search_body(&self, query: &str, params: Option<&str>) -> (r: Json)
        ensures
            r@ == search_request(
                self.client_name@,
                self.client_version@,
                self.hl@,
                self.gl@,
                query@,
                match params {
                    Some(p) => Some(p@),
                    None => None,
                },
            ),
    {
        let mut client: Vec<(String, Json)> = Vec::new();
        client.push(text_member("clientName", self.client_name.as_str()));
        client.push(text_member("clientVersion", self.client_version.as_str()));
        client.push(text_member("hl", self.hl.as_str()));
        client.push(text_member("gl", self.gl.as_str()));
        let client = object_of(client);
        assert(client@->Object_0 =~= seq![
            ("clientName"@, JsonView::Text(self.client_name@)),
            ("clientVersion"@, JsonView::Text(self.client_version@)),
            ("hl"@, JsonView::Text(self.hl@)),
            ("gl"@, JsonView::Text(self.gl@)),
        ]);
        let mut context: Vec<(String, Json)> = Vec::new();
        context.push((String::from_str("client"), client));
        let context = object_of(context);
        assert(context@->Object_0 =~= seq![("client"@, client@)]);
        let mut body: Vec<(String, Json)> = Vec::new();
        body.push((String::from_str("context"), context));
        body.push(text_member("query", query));
        let ghost always = seq![("context"@, context@), ("query"@, JsonView::Text(query@))];
        match params {
            Some(p) => {
                body.push(text_member("params", p));
                let r = object_of(body);
                assert(r@->Object_0 =~= always.push(("params"@, JsonView::Text(p@))));
                r
            },
            None => {
                let r = object_of(body);
                assert(r@->Object_0 =~= always);
                r
            },
        }
    }

    /// How requests name their sender: by the `user-agent` header of the
    /// settings, else by the default.
    pub fn user_agent(&self) -> (r: String)
        ensures
            r@ == match header_value(self.headers@, "user-agent"@) {
                Some(agent) => agent,
                None => default_user_agent(),
            },
    {
        let wanted = String::from_str("user-agent");
        let ghost all = self.headers@;
        let mut i: usize = 0;
        assert(all.skip(0) == all);
        while i < self.headers.len()
            invariant
                i <= self.headers.len(),
                all == self.headers@,
                wanted@ == "user-agent"@,
                header_value(all, "user-agent"@) == header_value(
                    all.skip(i as int),
                    "user-agent"@,
                ),
            decreases self.headers.len() - i,
        {
            assert(all.skip(i as int)[0] == all[i as int]);
            assert(all.skip(i as int).drop_first() == all.skip(i + 1));
            if self.headers[i].0 == wanted {
                return self.headers[i].1.clone();
            }
            i += 1;
        }
        String::from_str("Mozilla/5.0")
    }
}

} // verus!

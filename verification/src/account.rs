//! Requests to the alliance's account service, and how each is written.

use vstd::prelude::*;
use crate::number::{decimal, u64_chars};
use crate::text::{chars_of, remove_char, text_of, without_char};

verus! {

/// How a tag is stored: `#` followed by the tag with every `#` removed.
pub open spec fn tag_form(tag: Seq<char>) -> Seq<char> {
    seq!['#'] + without_char(tag, '#')
}

/// `#` and `tag` without its `#` characters, as the account service stores tags.
pub fn normalize_tag(tag: &str) -> (t: String)
    ensures
        t@ == tag_form(tag@),
{
    let v = remove_char(&chars_of(tag), '#');
    let rest = text_of(&v);
    let mut t = "#".to_owned();
    t.append(rest.as_str());
    proof {
        reveal_strlit("#");
    }
    t
}

proof fn lemma_without_char_free(s: Seq<char>, c: char)
    requires
        forall|i: int| 0 <= i < s.len() ==> s[i] != c,
    ensures
        without_char(s, c) == s,
    decreases s.len(),
{
    if s.len() > 0 {
        lemma_without_char_free(s.drop_last(), c);
        assert(s.drop_last().push(s.last()) =~= s);
    }
}

proof fn lemma_without_char_has_none(s: Seq<char>, c: char)
    ensures
        forall|i: int| 0 <= i < without_char(s, c).len() ==> without_char(s, c)[i] != c,
    decreases s.len(),
{
    if s.len() > 0 {
        lemma_without_char_has_none(s.drop_last(), c);
        let w = without_char(s.drop_last(), c);
        if s.last() != c {
            assert forall|i: int| 0 <= i < w.push(s.last()).len() implies w.push(s.last())[i] != c by {
                if i < w.len() {
                    assert(w.push(s.last())[i] == w[i]);
                }
            }
        }
    }
}

proof fn lemma_without_char_concat(a: Seq<char>, b: Seq<char>, c: char)
    ensures
        without_char(a + b, c) == without_char(a, c) + without_char(b, c),
    decreases b.len(),
{
    if b.len() == 0 {
        assert(a + b =~= a);
        assert(without_char(a, c) + without_char(b, c) =~= without_char(a, c));
    } else {
        lemma_without_char_concat(a, b.drop_last(), c);
        assert((a + b).drop_last() =~= a + b.drop_last());
        assert((a + b).last() == b.last());
        if b.last() == c {
        } else {
            assert(without_char(a, c) + without_char(b.drop_last(), c).push(b.last())
                =~= (without_char(a, c) + without_char(b.drop_last(), c)).push(b.last()));
        }
    }
}

/// A stored tag begins with `#`, holds no other `#`, and storing it again
/// leaves it as it is.
pub proof fn lemma_tag_form(tag: Seq<char>)
    ensures
        tag_form(tag)[0] == '#',
        forall|i: int| 1 <= i < tag_form(tag).len() ==> tag_form(tag)[i] != '#',
        tag_form(tag_form(tag)) == tag_form(tag),
{
    let t = tag_form(tag);
    let w = without_char(tag, '#');
    lemma_without_char_has_none(tag, '#');
    assert forall|i: int| 1 <= i < t.len() implies t[i] != '#' by {
        assert(t[i] == w[i - 1]);
    }
    lemma_without_char_free(w, '#');
    lemma_without_char_concat(seq!['#'], w, '#');
    assert(seq!['#'].drop_last() =~= Seq::<char>::empty());
    assert(seq!['#'].last() == '#');
    assert(without_char(Seq::<char>::empty(), '#') =~= Seq::<char>::empty());
    assert(without_char(seq!['#'], '#') =~= Seq::<char>::empty());
    assert(Seq::<char>::empty() + w =~= w);
}

/// The view of an optional string: its characters.
pub open spec fn opt_view(o: Option<String>) -> Option<Seq<char>> {
    match o {
        Some(s) => Some(s@),
        None => None,
    }
}

/// One call to the account service.
#[derive(Clone, Debug, PartialEq, Eq)]
pub enum Request {
    /// Look up the record of the member `name` (with the given status).
    SearchAccount { name: String, status: i64 },
    /// Ask to join the alliance with the tag `tag`.
    CreateAccount { name: String, tag: String },
    /// Change the tag of the member `name`.
    UpdateAccount { name: String, tag: String },
    /// Fetch the records that wait for approval.
    ListWaiting,
    /// Approve the record `id`.
    ApproveAccount { id: i64 },
    /// Fetch every alliance's war window.
    ListTimes,
    /// Fetch the war window `time_id`.
    GetTime { time_id: u64 },
    /// Set the war window `time_id` to `time`.
    SetTime { time_id: u64, time: String },
    /// Fetch the summary of the clan `tag`.
    ClanInfo { tag: String },
    /// Search clans by name, at most `limit` of them.
    ClansInfo { name: String, limit: String },
    /// Fetch the war log of the clan `tag`.
    WarLog { tag: String },
}

/// A request, with its texts as character sequences.
pub enum RequestView {
    SearchAccount { name: Seq<char>, status: i64 },
    CreateAccount { name: Seq<char>, tag: Seq<char> },
    UpdateAccount { name: Seq<char>, tag: Seq<char> },
    ListWaiting,
    ApproveAccount { id: i64 },
    ListTimes,
    GetTime { time_id: u64 },
    SetTime { time_id: u64, time: Seq<char> },
    ClanInfo { tag: Seq<char> },
    ClansInfo { name: Seq<char>, limit: Seq<char> },
    WarLog { tag: Seq<char> },
}

impl View for Request {
    type V = RequestView;

    open spec fn view(&self) -> RequestView {
        match self {
            Request::SearchAccount { name, status } => RequestView::SearchAccount {
                name: name@,
                status: *status,
            },
            Request::CreateAccount { name, tag } => RequestView::CreateAccount {
                name: name@,
                tag: tag@,
            },
            Request::UpdateAccount { name, tag } => RequestView::UpdateAccount {
                name: name@,
                tag: tag@,
            },
            Request::ListWaiting => RequestView::ListWaiting,
            Request::ApproveAccount { id } => RequestView::ApproveAccount { id: *id },
            Request::ListTimes => RequestView::ListTimes,
            Request::GetTime { time_id } => RequestView::GetTime { time_id: *time_id },
            Request::SetTime { time_id, time } => RequestView::SetTime {
                time_id: *time_id,
                time: time@,
            },
            Request::ClanInfo { tag } => RequestView::ClanInfo { tag: tag@ },
            Request::ClansInfo { name, limit } => RequestView::ClansInfo {
                name: name@,
                limit: limit@,
            },
            Request::WarLog { tag } => RequestView::WarLog { tag: tag@ },
        }
    }
}

/// The JSON object that a POST request sends; absent fields are left out.
/// `time_id` goes out under the key `id`, and `kind` under the key `type`.
#[derive(Clone, Debug, PartialEq, Eq)]
pub struct RequestBody {
    pub id: Option<i64>,
    pub time_id: Option<u64>,
    pub name: Option<String>,
    pub tag: Option<String>,
    pub kind: Option<i64>,
    pub status: Option<i64>,
    pub time: Option<String>,
}

/// A request body, with its texts as character sequences.
pub struct RequestBodyView {
    pub id: Option<i64>,
    pub time_id: Option<u64>,
    pub name: Option<Seq<char>>,
    pub tag: Option<Seq<char>>,
    pub kind: Option<i64>,
    pub status: Option<i64>,
    pub time: Option<Seq<char>>,
}

impl View for RequestBody {
    type V = RequestBodyView;

    open spec fn view(&self) -> RequestBodyView {
        RequestBodyView {
            id: self.id,
            time_id: self.time_id,
            name: opt_view(self.name),
            tag: opt_view(self.tag),
            kind: self.kind,
            status: self.status,
            time: opt_view(self.time),
        }
    }
}

/// The path, under the service's base URL, that a request goes to.
pub open spec fn request_path(r: RequestView) -> Seq<char> {
    match r {
        RequestView::SearchAccount { .. } => "/get/oa_search"@,
        RequestView::CreateAccount { .. } => "/get/oa_to"@,
        RequestView::UpdateAccount { .. } => "/get/oa_up"@,
        RequestView::ListWaiting => "/get/oa_wait"@,
        RequestView::ApproveAccount { .. } => "/get/oa_set"@,
        RequestView::ListTimes => "/get/listTime"@,
        RequestView::GetTime { time_id } => "/get/getTime/"@ + decimal(time_id as nat),
        RequestView::SetTime { .. } => "/get/setTime"@,
        RequestView::ClanInfo { tag } => "/coc/clan_info/"@ + tag,
        RequestView::ClansInfo { name, limit } => "/coc/clans_info/"@ + name + "/"@ + limit,
        RequestView::WarLog { tag } => "/coc/war_log/"@ + tag,
    }
}

/// A body with no field set.
pub open spec fn empty_body() -> RequestBodyView {
    RequestBodyView {
        id: None,
        time_id: None,
        name: None,
        tag: None,
        kind: None,
        status: None,
        time: None,
    }
}

/// The JSON body of a request: `Some` for the requests sent by POST,
/// `None` for those sent by GET. Joining and changing a tag send the tag in
/// its stored form, with the member kind 2.
pub open spec fn request_body(r: RequestView) -> Option<RequestBodyView> {
    match r {
        RequestView::SearchAccount { name, status } => Some(
            RequestBodyView { name: Some(name), status: Some(status), ..empty_body() },
        ),
        RequestView::CreateAccount { name, tag } => Some(
            RequestBodyView {
                name: Some(name),
                tag: Some(tag_form(tag)),
                kind: Some(2),
                status: Some(0),
                ..empty_body()
            },
        ),
        RequestView::UpdateAccount { name, tag } => Some(
            RequestBodyView {
                name: Some(name),
                tag: Some(tag_form(tag)),
                kind: Some(2),
                ..empty_body()
            },
        ),
        RequestView::ApproveAccount { id } => Some(
            RequestBodyView { id: Some(id), status: Some(1), ..empty_body() },
        ),
        RequestView::SetTime { time_id, time } => Some(
            RequestBodyView { time_id: Some(time_id), time: Some(time), ..empty_body() },
        ),
        _ => None,
    }
}

fn no_body() -> (b: RequestBody)
    ensures
        b@ == empty_body(),
{
    RequestBody { id: None, time_id: None, name: None, tag: None, kind: None, status: None, time: None }
}

impl Request {
    /// The path of this request under the service's base URL.
    pub fn path(&self) -> (p: String)
        ensures
            p@ == request_path(self@),
    {
        match self {
            Request::SearchAccount { .. } => "/get/oa_search".to_owned(),
            Request::CreateAccount { .. } => "/get/oa_to".to_owned(),
            Request::UpdateAccount { .. } => "/get/oa_up".to_owned(),
            Request::ListWaiting => "/get/oa_wait".to_owned(),
            Request::ApproveAccount { .. } => "/get/oa_set".to_owned(),
            Request::ListTimes => "/get/listTime".to_owned(),
            Request::GetTime { time_id } => {
                let mut p = "/get/getTime/".to_owned();
                let digits = text_of(&u64_chars(*time_id));
                p.append(digits.as_str());
                p
            },
            Request::SetTime { .. } => "/get/setTime".to_owned(),
            Request::ClanInfo { tag } => {
                let mut p = "/coc/clan_info/".to_owned();
                p.append(tag.as_str());
                p
            },
            Request::ClansInfo { name, limit } => {
                let mut p = "/coc/clans_info/".to_owned();
                p.append(name.as_str());
                p.append("/");
                p.append(limit.as_str());
                p
            },
            Request::WarLog { tag } => {
                let mut p = "/coc/war_log/".to_owned();
                p.append(tag.as_str());
                p
            },
        }
    }

    /// The full URL of this request: the service's base URL, then the path.
    pub fn url(&self, base: &str) -> (u: String)
        ensures
            u@ == base@ + request_path(self@),
    {
        let mut u = base.to_owned();
        let p = self.path();
        u.append(p.as_str());
        u
    }

    /// Whether this request is sent by POST (with a JSON body).
    pub fn is_post(&self) -> (b: bool)
        ensures
            b == request_body(self@) is Some,
    {
        match self {
            Request::SearchAccount { .. } => true,
            Request::CreateAccount { .. } => true,
            Request::UpdateAccount { .. } => true,
            Request::ApproveAccount { .. } => true,
            Request::SetTime { .. } => true,
            _ => false,
        }
    }

    /// The JSON body of this request, where it is sent by POST.
    pub fn body(&self) -> (b: Option<RequestBody>)
        ensures
            match b {
                Some(x) => request_body(self@) == Some(x@),
                None => request_body(self@) is None,
            },
    {
        match self {
            Request::SearchAccount { name, status } => {
                let mut b = no_body();
                b.name = Some(name.clone());
                b.status = Some(*status);
                Some(b)
            },
            Request::CreateAccount { name, tag } => {
                let mut b = no_body();
                b.name = Some(name.clone());
                b.tag = Some(normalize_tag(tag.as_str()));
                b.kind = Some(2);
                b.status = Some(0);
                Some(b)
            },
            Request::UpdateAccount { name, tag } => {
                let mut b = no_body();
                b.name = Some(name.clone());
                b.tag = Some(normalize_tag(tag.as_str()));
                b.kind = Some(2);
                Some(b)
            },
            Request::ApproveAccount { id } => {
                let mut b = no_body();
                b.id = Some(*id);
                b.status = Some(1);
                Some(b)
            },
            Request::SetTime { time_id, time } => {
                let mut b = no_body();
                b.time_id = Some(*time_id);
                b.time = Some(time.clone());
                Some(b)
            },
            _ => None,
        }
    }
}

} // verus!

//! The mailbox client: given an address and a transport, it lists the message
//! identifiers for the address and fetches each message's full content.

use crate::address::EmailAddr;
use crate::digits::{i64_to_string, is_dec};
use crate::error::MailError;
use crate::json::{json_of, lookup, lookup_field, parse_json, Json};
use crate::message::Email;
use vstd::prelude::*;

verus! {

/// The relay's API endpoint.
pub const API_URL: &'static str = "https://www.1secmail.com/api/v1/";

/// A way to reach the relay over HTTP. The caller supplies an implementation;
/// `Some` carries the response body of a completed request, `None` stands for
/// any transport failure. Nothing is assumed of either outcome.
pub trait Transport {
    /// Issues a GET request for `url` with the given query parameters.
    fn http_get(&self, url: &str, query: &Vec<(String, String)>) -> Option<String>;
}

/// The identifier an array element contributes to the listing: the value of
/// its `id` field, where the element is an object and the value an integer.
pub open spec fn id_of_elem(e: Json) -> Option<i64> {
    match e {
        Json::Obj(fs) => match lookup(fs@, "id"@) {
            Some(Json::Int(i)) => Some(i),
            _ => None,
        },
        _ => None,
    }
}

/// The identifiers of the elements, in order; elements without a numeric
/// `id` are discarded.
pub open spec fn ids_of_elems(elems: Seq<Json>) -> Seq<i64>
    decreases elems.len(),
{
    if elems.len() == 0 {
        Seq::empty()
    } else {
        let rest = ids_of_elems(elems.drop_last());
        match id_of_elem(elems.last()) {
            Some(i) => rest.push(i),
            None => rest,
        }
    }
}

/// The listing a parsed document denotes: the ids of the top-level array's
/// elements, `None` where the document is not an array.
pub open spec fn doc_ids(doc: Json) -> Option<Seq<i64>> {
    match doc {
        Json::Arr(elems) => Some(ids_of_elems(elems@)),
        _ => None,
    }
}

/// The listing a `getMessages` response body denotes: the ids of the
/// top-level array's elements, `None` where the body is not a JSON array.
pub open spec fn list_ids(doc: Option<Json>) -> Option<Seq<i64>> {
    match doc {
        Some(d) => doc_ids(d),
        _ => None,
    }
}

/// Reads one array element's `id` field.
fn id_of_element(e: &Json) -> (r: Option<i64>)
    ensures
        r == id_of_elem(*e),
{
    match e {
        Json::Obj(fs) => match lookup_field(fs, "id") {
            Some(Json::Int(i)) => Some(*i),
            _ => None,
        },
        _ => None,
    }
}

/// Reads the message identifiers out of a parsed listing document. The
/// document must be a JSON array; anything else is a transport-level shape
/// violation. Elements without a numeric `id` are discarded; order is kept.
pub fn ids_from_doc(doc: &Json) -> (r: Result<Vec<i64>, MailError>)
    ensures
        r matches Ok(v) ==> doc_ids(*doc) == Some(v@),
        r matches Err(e) ==> e == MailError::Transport && doc_ids(*doc) is None,
{
    let elems = match doc {
        Json::Arr(es) => es,
        _ => {
            return Err(MailError::Transport);
        },
    };
    let mut ids: Vec<i64> = Vec::new();
    let mut k: usize = 0;
    proof {
        assert(elems@.take(0) =~= Seq::<Json>::empty());
    }
    while k < elems.len()
        invariant
            k <= elems@.len(),
            ids@ == ids_of_elems(elems@.take(k as int)),
            doc_ids(*doc) == Some(ids_of_elems(elems@)),
        decreases elems@.len() - k,
    {
        proof {
            assert(elems@.take(k as int + 1).drop_last() =~= elems@.take(k as int));
            assert(elems@.take(k as int + 1).last() == elems@[k as int]);
        }
        match id_of_element(&elems[k]) {
            Some(i) => ids.push(i),
            None => (),
        }
        k = k + 1;
    }
    proof {
        assert(elems@.take(elems@.len() as int) =~= elems@);
    }
    Ok(ids)
}

/// Parses the body of a `getMessages` response into the message identifiers:
/// the body must be valid JSON, and an array as `ids_from_doc` asks.
pub fn ids_from_body(s: &str) -> (r: Result<Vec<i64>, MailError>)
    ensures
        r matches Ok(v) ==> list_ids(json_of(s@)) == Some(v@),
        r matches Err(e) ==> e == MailError::Transport && list_ids(json_of(s@)) is None,
{
    let doc = match parse_json(s) {
        Some(d) => d,
        None => {
            return Err(MailError::Transport);
        },
    };
    ids_from_doc(&doc)
}

/// The query parameters of a `getMessages` request for `addr`.
pub fn list_query(addr: &EmailAddr) -> (q: Vec<(String, String)>)
    ensures
        q@.len() == 3,
        q@[0].0@ == "action"@ && q@[0].1@ == "getMessages"@,
        q@[1].0@ == "login"@ && q@[1].1@ == addr.spec_user(),
        q@[2].0@ == "domain"@ && q@[2].1@ == addr.spec_domain(),
{
    let mut q: Vec<(String, String)> = Vec::new();
    q.push((String::from_str("action"), String::from_str("getMessages")));
    q.push((String::from_str("login"), String::from_str(addr.user())));
    q.push((String::from_str("domain"), String::from_str(addr.domain())));
    q
}

/// The query parameters of a `readMessage` request for message `id` of
/// `addr`; the id stands as its decimal numeral.
pub fn read_query(addr: &EmailAddr, id: i64) -> (q: Vec<(String, String)>)
    ensures
        q@.len() == 4,
        q@[0].0@ == "action"@ && q@[0].1@ == "readMessage"@,
        q@[1].0@ == "login"@ && q@[1].1@ == addr.spec_user(),
        q@[2].0@ == "domain"@ && q@[2].1@ == addr.spec_domain(),
        q@[3].0@ == "id"@ && is_dec(q@[3].1@, id as int),
{
    let mut q: Vec<(String, String)> = Vec::new();
    q.push((String::from_str("action"), String::from_str("readMessage")));
    q.push((String::from_str("login"), String::from_str(addr.user())));
    q.push((String::from_str("domain"), String::from_str(addr.domain())));
    q.push((String::from_str("id"), i64_to_string(id)));
    q
}

/// A temporary mailbox: an address and the transport used to poll it.
pub struct TempEmail<T> {
    email_adress: EmailAddr,
    client: T,
}

impl<T: Transport> TempEmail<T> {
    /// The mailbox's address.
    pub closed spec fn spec_address(&self) -> EmailAddr {
        self.email_adress
    }

    /// A well-formed mailbox: its address is well-formed.
    pub open spec fn wf(&self) -> bool {
        self.spec_address().wf()
    }

    /// Creates a temporary email with a freshly generated address.
    pub fn new(client: T) -> (r: Self)
        ensures
            r.wf(),
    {
        let mail = EmailAddr::new();
        Self::from_email_addr(mail, client)
    }

    /// Creates a temporary email from a given `EmailAddr`.
    pub fn from_email_addr(mail: EmailAddr, client: T) -> (r: Self)
        ensures
            r.spec_address() == mail,
    {
        TempEmail { email_adress: mail, client }
    }

    /// Returns the address of the `TempEmail`.
    pub fn get_address(&self) -> (r: EmailAddr)
        ensures
            r == self.spec_address(),
    {
        self.email_adress.clone()
    }

    /// Returns a vector of received `Email`s: lists the message identifiers
    /// for the address, then fetches each message in the listing's order.
    /// The first failure aborts the whole operation: a failed request or a
    /// listing that is no JSON array is `Transport`, a message body that does
    /// not parse is `Parse`; no partial inbox is returned. Every returned
    /// message is well-formed, and each parsed exactly from some response
    /// body handed back by the transport.
    pub fn get_inbox(&self) -> (r: Result<Vec<Email>, MailError>)
        ensures
            r matches Ok(inbox) ==> forall|i: int|
                0 <= i < inbox@.len() ==> (#[trigger] inbox@[i]).wf(),
    {
        let q = list_query(&self.email_adress);
        let body = match self.client.http_get(API_URL, &q) {
            Some(b) => b,
            None => {
                return Err(MailError::Transport);
            },
        };
        let ids = match ids_from_body(body.as_str()) {
            Ok(v) => v,
            Err(e) => {
                return Err(e);
            },
        };
        let mut inbox: Vec<Email> = Vec::new();
        let mut k: usize = 0;
        while k < ids.len()
            invariant
                forall|i: int| 0 <= i < inbox@.len() ==> (#[trigger] inbox@[i]).wf(),
            decreases ids@.len() - k,
        {
            let rq = read_query(&self.email_adress, ids[k]);
            let mbody = match self.client.http_get(API_URL, &rq) {
                Some(b) => b,
                None => {
                    return Err(MailError::Transport);
                },
            };
            let email = match Email::from_json(mbody.as_str()) {
                Ok(e) => e,
                Err(e) => {
                    return Err(e);
                },
            };
            inbox.push(email);
            k = k + 1;
        }
        Ok(inbox)
    }
}

} // verus!

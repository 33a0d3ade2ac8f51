//! The registry client: what it asks of the registry, and what it makes of
//! the answer.
//!
//! The client does not talk to the network itself. Each operation is a
//! request, which the caller's transport sends, and a verdict on the outcome
//! that the transport reports. The methods `register`, `get_all` and `get`
//! put the two together round a transport that is handed in as a function.

use crate::encode::encoded_request;
use crate::json::{Json, JsonModel};
use crate::models::{Instance, InstanceModel, RegisterRequest};
use crate::registry::{decoded_snapshot, instances_model, Applications};
use crate::url::{encode_segment, joined, push_char};
use vstd::prelude::*;
use vstd::string::*;

verus! {

/// The one status that answers a registration.
pub const NO_CONTENT: u16 = 204;

/// The seconds that a transport may take for each of connecting, reading and
/// writing.
pub const TIMEOUT_SECS: u64 = 5;

/// The view of a [`EurekaError`].
pub enum EurekaErrorModel {
    Network(Seq<char>),
    Http(u16, Seq<char>),
    UnexpectedState(Seq<char>),
    ParseError(Seq<char>),
    IOError(Seq<char>),
    NotFound(Seq<char>),
}

/// Why an operation of the client failed.
#[derive(Debug, Clone, PartialEq, Eq)]
pub enum EurekaError {
    /// No status was obtained; holds what the transport reports.
    Network(String),
    /// The registry answered with another status than the operation takes;
    /// holds the status and the body of the answer.
    Http(u16, String),
    UnexpectedState(String),
    /// The body of an answer is no snapshot; holds the decode error's text.
    ParseError(String),
    /// The body of an answer could not be read.
    IOError(String),
    /// The snapshot has no application of the name asked for; holds the name.
    NotFound(String),
}

impl View for EurekaError {
    type V = EurekaErrorModel;

    open spec fn view(&self) -> EurekaErrorModel {
        match self {
            EurekaError::Network(detail) => EurekaErrorModel::Network(detail@),
            EurekaError::Http(status, body) => EurekaErrorModel::Http(*status, body@),
            EurekaError::UnexpectedState(detail) => EurekaErrorModel::UnexpectedState(detail@),
            EurekaError::ParseError(detail) => EurekaErrorModel::ParseError(detail@),
            EurekaError::IOError(detail) => EurekaErrorModel::IOError(detail@),
            EurekaError::NotFound(name) => EurekaErrorModel::NotFound(name@),
        }
    }
}

/// The decimal digit of a value below ten.
pub open spec fn digit(d: nat) -> char {
    (0x30 + d) as u8 as char
}

/// A number in decimal digits, without leading zeros.
pub open spec fn decimal(n: nat) -> Seq<char>
    decreases n,
{
    if n < 10 {
        seq![digit(n)]
    } else {
        decimal(n / 10).push(digit(n % 10))
    }
}

impl EurekaErrorModel {
    /// The error as one line of text.
    pub open spec fn message(self) -> Seq<char> {
        match self {
            EurekaErrorModel::Network(detail) => "Network error "@ + detail,
            EurekaErrorModel::Http(status, _) => "Unexpected status code "@ + decimal(
                status as nat,
            ),
            EurekaErrorModel::UnexpectedState(detail) => "Unexpected state encountered: "@
                + detail,
            EurekaErrorModel::ParseError(detail) => "Parsing error "@ + detail,
            EurekaErrorModel::IOError(detail) => "IO error: "@ + detail,
            EurekaErrorModel::NotFound(name) => "App "@ + name + " not found in registry"@,
        }
    }
}

/// A status in decimal digits.
fn status_text(status: u16) -> (r: String)
    ensures
        r@ == decimal(status as nat),
    decreases status,
{
    let last = (0x30 + (status % 10) as u8) as char;
    if status < 10 {
        let mut text = String::new();
        push_char(&mut text, last);
        assert(text@ =~= seq![digit(status as nat)]);
        text
    } else {
        let mut text = status_text(status / 10);
        push_char(&mut text, last);
        text
    }
}

impl EurekaError {
    /// The error as one line of text.
    pub fn message(&self) -> (r: String)
        ensures
            r@ == self@.message(),
    {
        match self {
            EurekaError::Network(detail) => String::from_str("Network error ").concat(
                detail.as_str(),
            ),
            EurekaError::Http(status, _) => String::from_str("Unexpected status code ").concat(
                status_text(*status).as_str(),
            ),
            EurekaError::UnexpectedState(detail) => String::from_str(
                "Unexpected state encountered: ",
            ).concat(detail.as_str()),
            EurekaError::ParseError(detail) => String::from_str("Parsing error ").concat(
                detail.as_str(),
            ),
            EurekaError::IOError(detail) => String::from_str("IO error: ").concat(detail.as_str()),
            EurekaError::NotFound(name) => String::from_str("App ").concat(name.as_str()).concat(
                " not found in registry",
            ),
        }
    }
}

/// The two methods that the client uses.
#[derive(Debug, Clone, Copy, PartialEq, Eq)]
pub enum Method {
    Get,
    Post,
}

/// The view of a [`Request`].
pub struct RequestModel {
    pub method: Method,
    pub url: Seq<char>,
    pub accept: Seq<char>,
    pub body: Option<JsonModel>,
}

/// What the client asks of the registry.
#[derive(Debug)]
pub struct Request {
    pub method: Method,
    pub url: String,
    /// The value of the header `Accept`.
    pub accept: String,
    /// The JSON document to send, where the request has a body.
    pub body: Option<Json>,
}

impl View for Request {
    type V = RequestModel;

    open spec fn view(&self) -> RequestModel {
        RequestModel {
            method: self.method,
            url: self.url@,
            accept: self.accept@,
            body: match self.body {
                Some(document) => Some(document@),
                None => None,
            },
        }
    }
}

/// The view of an [`Outcome`].
pub enum OutcomeModel {
    Response { status: u16, body: Seq<char> },
    Transport(Seq<char>),
    Unreadable(Seq<char>),
}

/// What became of a request.
#[derive(Debug, Clone, PartialEq, Eq)]
pub enum Outcome {
    /// The registry answered.
    Response { status: u16, body: String },
    /// No status was obtained: the connection, the name lookup, TLS or a
    /// timeout failed. Holds the transport's account of it.
    Transport(String),
    /// A status was obtained and the body could not be read.
    Unreadable(String),
}

impl View for Outcome {
    type V = OutcomeModel;

    open spec fn view(&self) -> OutcomeModel {
        match self {
            Outcome::Response { status, body } => OutcomeModel::Response {
                status: *status,
                body: body@,
            },
            Outcome::Transport(detail) => OutcomeModel::Transport(detail@),
            Outcome::Unreadable(detail) => OutcomeModel::Unreadable(detail@),
        }
    }
}

/// The request that registers an instance under an application's name.
pub open spec fn register_request(
    base: Seq<char>,
    app_name: Seq<char>,
    instance: InstanceModel,
) -> RequestModel {
    RequestModel {
        method: Method::Post,
        url: joined(base, seq![app_name]),
        accept: "application/json"@,
        body: Some(encoded_request(instance)),
    }
}

/// The request that fetches the snapshot.
pub open spec fn snapshot_request(base: Seq<char>) -> RequestModel {
    RequestModel {
        method: Method::Get,
        url: joined(base, Seq::empty()),
        accept: "application/json"@,
        body: None,
    }
}

/// What a registration comes to: it succeeded where the registry answered
/// 204, and with no other status.
pub open spec fn register_verdict(outcome: OutcomeModel) -> Result<(), EurekaErrorModel> {
    match outcome {
        OutcomeModel::Response { status, body } => if status == NO_CONTENT {
            Ok(())
        } else {
            Err(EurekaErrorModel::Http(status, body))
        },
        OutcomeModel::Transport(detail) => Err(EurekaErrorModel::Network(detail)),
        OutcomeModel::Unreadable(detail) => Err(EurekaErrorModel::IOError(detail)),
    }
}

/// What a fetch of the snapshot comes to: the body is decoded where the
/// status is one of 200 to 299, and only there.
pub open spec fn snapshot_verdict(outcome: OutcomeModel) -> Result<
    Map<Seq<char>, Seq<InstanceModel>>,
    EurekaErrorModel,
> {
    match outcome {
        OutcomeModel::Response { status, body } => if 200 <= status <= 299 {
            match decoded_snapshot(body) {
                Ok(snapshot) => Ok(snapshot),
                Err(fault) => Err(EurekaErrorModel::ParseError(fault.message())),
            }
        } else {
            Err(EurekaErrorModel::Http(status, body))
        },
        OutcomeModel::Transport(detail) => Err(EurekaErrorModel::Network(detail)),
        OutcomeModel::Unreadable(detail) => Err(EurekaErrorModel::IOError(detail)),
    }
}

/// What a lookup of one application comes to: its instances where the
/// snapshot has the name, letter for letter, and a failure that holds the name
/// where it has not.
pub open spec fn lookup_verdict(app_name: Seq<char>, outcome: OutcomeModel) -> Result<
    Seq<InstanceModel>,
    EurekaErrorModel,
> {
    match snapshot_verdict(outcome) {
        Err(e) => Err(e),
        Ok(snapshot) => if snapshot.contains_key(app_name) {
            Ok(snapshot[app_name])
        } else {
            Err(EurekaErrorModel::NotFound(app_name))
        },
    }
}

/// A client of one registry.
#[derive(Debug, Clone)]
pub struct EurekaClient {
    url: String,
}

impl EurekaClient {
    /// The base URL of the registry.
    pub closed spec fn base(&self) -> Seq<char> {
        self.url@
    }

    /// A client of the registry at `url`, such as `http://host:port/eureka/apps`.
    pub fn new(url: String) -> (r: Self)
        ensures
            r.base() == url@,
    {
        EurekaClient { url }
    }

    /// The registry's URL with path segments behind it.
    pub fn format_url(&self, segments: &[&str]) -> (r: String)
        ensures
            r@ == joined(self.base(), segments@.map_values(|s: &str| s@)),
    {
        let ghost texts = segments@.map_values(|s: &str| s@);
        let mut out = self.url.clone();
        let mut i: usize = 0;
        while i < segments.len()
            invariant
                i <= segments@.len(),
                texts == segments@.map_values(|s: &str| s@),
                out@ == joined(self.base(), texts.take(i as int)),
            decreases segments.len() - i,
        {
            proof {
                reveal_strlit("/");
                assert("/"@ =~= seq!['/']);
                assert(texts.take(i + 1).drop_last() =~= texts.take(i as int));
                assert(texts.take(i + 1).last() == segments@[i as int]@);
            }
            let encoded = encode_segment(segments[i]);
            out.append("/");
            out.append(encoded.as_str());
            i += 1;
        }
        proof {
            assert(texts.take(i as int) =~= texts);
        }
        out
    }

    /// The request that registers `app_data` under `app_name`.
    pub fn register_request(&self, app_name: &str, app_data: &Instance) -> (r: Request)
        ensures
            r@ == register_request(self.base(), app_name@, app_data@),
    {
        let segments = [app_name];
        let url = self.format_url(&segments);
        proof {
            assert(segments@.map_values(|s: &str| s@) =~= seq![app_name@]);
        }
        Request {
            method: Method::Post,
            url,
            accept: "application/json".to_owned(),
            body: Some((RegisterRequest { instance: app_data }).to_json()),
        }
    }

    /// The request that fetches the snapshot.
    pub fn snapshot_request(&self) -> (r: Request)
        ensures
            r@ == snapshot_request(self.base()),
    {
        let segments: [&str; 0] = [];
        let url = self.format_url(&segments);
        proof {
            assert(segments@.map_values(|s: &str| s@) =~= Seq::<Seq<char>>::empty());
        }
        Request { method: Method::Get, url, accept: "application/json".to_owned(), body: None }
    }

    /// The verdict on a registration.
    pub fn register_result(outcome: Outcome) -> (r: Result<(), EurekaError>)
        ensures
            match r {
                Ok(_) => register_verdict(outcome@) == Ok::<(), EurekaErrorModel>(()),
                Err(e) => register_verdict(outcome@) == Err::<(), EurekaErrorModel>(e@),
            },
    {
        match outcome {
            Outcome::Response { status, body } => {
                if status == NO_CONTENT {
                    Ok(())
                } else {
                    Err(EurekaError::Http(status, body))
                }
            },
            Outcome::Transport(detail) => Err(EurekaError::Network(detail)),
            Outcome::Unreadable(detail) => Err(EurekaError::IOError(detail)),
        }
    }

    /// The verdict on a fetch of the snapshot.
    pub fn snapshot_result(outcome: Outcome) -> (r: Result<Applications, EurekaError>)
        ensures
            match r {
                Ok(snapshot) => snapshot_verdict(outcome@) == Ok::<
                    Map<Seq<char>, Seq<InstanceModel>>,
                    EurekaErrorModel,
                >(snapshot@),
                Err(e) => snapshot_verdict(outcome@) == Err::<
                    Map<Seq<char>, Seq<InstanceModel>>,
                    EurekaErrorModel,
                >(e@),
            },
    {
        match outcome {
            Outcome::Response { status, body } => {
                if 200 <= status && status <= 299 {
                    match Applications::from_json_text(body.as_str()) {
                        Ok(snapshot) => Ok(snapshot),
                        Err(fault) => Err(EurekaError::ParseError(fault.message())),
                    }
                } else {
                    Err(EurekaError::Http(status, body))
                }
            },
            Outcome::Transport(detail) => Err(EurekaError::Network(detail)),
            Outcome::Unreadable(detail) => Err(EurekaError::IOError(detail)),
        }
    }

    /// The verdict on a lookup of one application.
    pub fn lookup_result(app_name: &str, outcome: Outcome) -> (r: Result<
        Vec<Instance>,
        EurekaError,
    >)
        ensures
            match r {
                Ok(instances) => lookup_verdict(app_name@, outcome@) == Ok::<
                    Seq<InstanceModel>,
                    EurekaErrorModel,
                >(instances_model(instances@)),
                Err(e) => lookup_verdict(app_name@, outcome@) == Err::<
                    Seq<InstanceModel>,
                    EurekaErrorModel,
                >(e@),
            },
    {
        let mut snapshot = match Self::snapshot_result(outcome) {
            Ok(snapshot) => snapshot,
            Err(e) => {
                return Err(e);
            },
        };
        match snapshot.applications.remove(app_name) {
            Some(instances) => Ok(instances),
            None => Err(EurekaError::NotFound(app_name.to_owned())),
        }
    }

    /// Registers `app_data` under `app_name`: hands the request to `send`
    /// once and gives the verdict on what `send` reports. Nothing is tried a
    /// second time.
    pub fn register<F: FnOnce(Request) -> Outcome>(
        &self,
        app_name: &str,
        app_data: &Instance,
        send: F,
    ) -> (r: Result<(), EurekaError>)
        requires
            forall|request: Request|
                request@ == register_request(self.base(), app_name@, app_data@)
                    ==> send.requires((request,)),
        ensures
            exists|request: Request, outcome: Outcome|
                request@ == register_request(self.base(), app_name@, app_data@)
                    && #[trigger] send.ensures((request,), outcome) && match r {
                    Ok(_) => register_verdict(outcome@) == Ok::<(), EurekaErrorModel>(()),
                    Err(e) => register_verdict(outcome@) == Err::<(), EurekaErrorModel>(e@),
                },
    {
        let request = self.register_request(app_name, app_data);
        let ghost sent = request;
        let outcome = send(request);
        let ghost reported = outcome;
        let r = Self::register_result(outcome);
        assert(send.ensures((sent,), reported));
        r
    }

    /// Fetches the snapshot: hands the request to `send` once and gives the
    /// verdict on what `send` reports.
    pub fn get_all<F: FnOnce(Request) -> Outcome>(&self, send: F) -> (r: Result<
        Applications,
        EurekaError,
    >)
        requires
            forall|request: Request|
                request@ == snapshot_request(self.base()) ==> send.requires((request,)),
        ensures
            exists|request: Request, outcome: Outcome|
                request@ == snapshot_request(self.base()) && #[trigger] send.ensures(
                    (request,),
                    outcome,
                ) && match r {
                    Ok(snapshot) => snapshot_verdict(outcome@) == Ok::<
                        Map<Seq<char>, Seq<InstanceModel>>,
                        EurekaErrorModel,
                    >(snapshot@),
                    Err(e) => snapshot_verdict(outcome@) == Err::<
                        Map<Seq<char>, Seq<InstanceModel>>,
                        EurekaErrorModel,
                    >(e@),
                },
    {
        let request = self.snapshot_request();
        let ghost sent = request;
        let outcome = send(request);
        let ghost reported = outcome;
        let r = Self::snapshot_result(outcome);
        assert(send.ensures((sent,), reported));
        r
    }

    /// Fetches the snapshot as `get_all` does and looks `app_name` up in it.
    pub fn get<F: FnOnce(Request) -> Outcome>(&self, app_name: &str, send: F) -> (r: Result<
        Vec<Instance>,
        EurekaError,
    >)
        requires
            forall|request: Request|
                request@ == snapshot_request(self.base()) ==> send.requires((request,)),
        ensures
            exists|request: Request, outcome: Outcome|
                request@ == snapshot_request(self.base()) && #[trigger] send.ensures(
                    (request,),
                    outcome,
                ) && match r {
                    Ok(instances) => lookup_verdict(app_name@, outcome@) == Ok::<
                        Seq<InstanceModel>,
                        EurekaErrorModel,
                    >(instances_model(instances@)),
                    Err(e) => lookup_verdict(app_name@, outcome@) == Err::<
                        Seq<InstanceModel>,
                        EurekaErrorModel,
                    >(e@),
                },
    {
        let request = self.snapshot_request();
        let ghost sent = request;
        let outcome = send(request);
        let ghost reported = outcome;
        let r = Self::lookup_result(app_name, outcome);
        assert(send.ensures((sent,), reported));
        r
    }
}

} // verus!

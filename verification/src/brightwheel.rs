//! The wire protocol of the Brightwheel service: the requests that a client
//! sends and the records that it reads from the replies. Nothing here touches
//! the network; a request is a description that a transport carries out.

use crate::fault::{Fault, Part};
use crate::json::{values_of, Json, JsonValue, Member};
use vstd::prelude::*;

verus! {

/// The base under which every endpoint lives.
pub const URL_BASE: &'static str = "https://schools.mybrightwheel.com/api/v1/";

/// The two HTTP methods that the protocol uses.
#[derive(Clone, Copy, Debug, PartialEq, Eq, Structural)]
pub enum Method {
    Get,
    Post,
}

/// One request header.
#[derive(Clone, Debug, PartialEq, Eq)]
pub struct Header {
    pub name: String,
    pub value: String,
}

/// One numeric query parameter.
#[derive(Clone, Debug, PartialEq, Eq)]
pub struct QueryParameter {
    pub name: String,
    pub value: u64,
}

/// A request to the service, ready for a transport to send.
#[derive(Debug, PartialEq, Eq)]
pub struct Request {
    pub method: Method,
    pub url: String,
    pub headers: Vec<Header>,
    pub query: Vec<QueryParameter>,
    pub body: Option<Json>,
}

/// The mathematical value of a [`Request`].
pub ghost struct RequestView {
    pub method: Method,
    pub url: Seq<char>,
    pub headers: Seq<(Seq<char>, Seq<char>)>,
    pub query: Seq<(Seq<char>, u64)>,
    pub body: Option<JsonValue>,
}

/// The headers as pairs of name and value.
pub open spec fn headers_view(headers: Seq<Header>) -> Seq<(Seq<char>, Seq<char>)> {
    Seq::new(headers.len(), |i: int| (headers[i].name@, headers[i].value@))
}

/// The query parameters as pairs of name and value.
pub open spec fn query_view(query: Seq<QueryParameter>) -> Seq<(Seq<char>, u64)> {
    Seq::new(query.len(), |i: int| (query[i].name@, query[i].value))
}

impl View for Request {
    type V = RequestView;

    open spec fn view(&self) -> RequestView {
        RequestView {
            method: self.method,
            url: self.url@,
            headers: headers_view(self.headers@),
            query: query_view(self.query@),
            body: match self.body {
                Some(json) => Some(json@),
                None => None,
            },
        }
    }
}

/// The address of the endpoint `path`: the base, a slash, and the path. The
/// base ends in a slash of its own, so two slashes stand before the path.
pub open spec fn endpoint_url(path: Seq<char>) -> Seq<char> {
    URL_BASE@ + "/"@ + path
}

/// The headers that identify the client on the two sign-in calls.
pub open spec fn auth_headers() -> Seq<(Seq<char>, Seq<char>)> {
    seq![
        ("content-type"@, "application/json"@),
        ("x-client-version"@, "106"@),
        ("x-client-name"@, "web"@),
        ("origin"@, "https://schools.mybrightwheel.com"@),
        ("referer"@, "https://schools.mybrightwheel.com/sign-in"@),
        (
            "user-agent"@,
            "Mozilla/5.0 (X11; Ubuntu; Linux x86_64; rv:139.0) Gecko/20100101 Firefox/139.0"@,
        ),
    ]
}

/// The body of the two sign-in calls: the credentials under `user`, and the
/// one-time code, when there is one, under `2fa_code`.
pub open spec fn authentication_value(
    email: Seq<char>,
    password: Seq<char>,
    mfa_code: Option<Seq<char>>,
) -> JsonValue {
    let user = JsonValue::Object(
        seq![("email"@, JsonValue::Text(email)), ("password"@, JsonValue::Text(password))],
    );
    match mfa_code {
        Some(code) => JsonValue::Object(seq![("user"@, user), ("2fa_code"@, JsonValue::Text(code))]),
        None => JsonValue::Object(seq![("user"@, user)]),
    }
}

fn endpoint(path: &str) -> (url: String)
    ensures
        url@ == endpoint_url(path@),
{
    let mut url = String::from_str(URL_BASE);
    url.append("/");
    url.append(path);
    url
}

fn header(name: &str, value: &str) -> (h: Header)
    ensures
        h.name@ == name@,
        h.value@ == value@,
{
    Header { name: String::from_str(name), value: String::from_str(value) }
}

fn text_member(key: &str, text: &str) -> (m: Member)
    ensures
        m.key@ == key@,
        m.value@ == JsonValue::Text(text@),
{
    Member { key: String::from_str(key), value: Json::Text(String::from_str(text)) }
}

/// Builds the body of a sign-in call.
pub fn authentication_json(email: &str, password: &str, mfa_code_opt: Option<&str>) -> (body: Json)
    ensures
        body@ == authentication_value(
            email@,
            password@,
            match mfa_code_opt {
                Some(code) => Some(code@),
                None => None,
            },
        ),
{
    let mut credentials: Vec<Member> = Vec::new();
    credentials.push(text_member("email", email));
    credentials.push(text_member("password", password));
    let user = Json::Object(credentials);
    assert(user@->Object_0 =~= seq![
        ("email"@, JsonValue::Text(email@)),
        ("password"@, JsonValue::Text(password@)),
    ]);
    let mut members: Vec<Member> = Vec::new();
    members.push(Member { key: String::from_str("user"), value: user });
    match mfa_code_opt {
        Some(code) => {
            members.push(text_member("2fa_code", code));
            let body = Json::Object(members);
            assert(body@->Object_0 =~= seq![
                ("user"@, user@),
                ("2fa_code"@, JsonValue::Text(code@)),
            ]);
            body
        },
        None => {
            let body = Json::Object(members);
            assert(body@->Object_0 =~= seq![("user"@, user@)]);
            body
        },
    }
}

/// What came back for a request: a reply with its status and its body,
/// decoded where it was JSON, or nothing at all.
#[derive(Debug, PartialEq, Eq)]
pub enum Response {
    Reply { status: u16, body: Option<Json> },
    Unreachable,
}

/// The mathematical value of a [`Response`].
pub ghost enum ResponseView {
    Reply { status: u16, body: Option<JsonValue> },
    Unreachable,
}

impl View for Response {
    type V = ResponseView;

    open spec fn view(&self) -> ResponseView {
        match self {
            Response::Reply { status, body } => ResponseView::Reply {
                status: *status,
                body: match body {
                    Some(json) => Some(json@),
                    None => None,
                },
            },
            Response::Unreachable => ResponseView::Unreachable,
        }
    }
}

impl ResponseView {
    /// The JSON document of a reply: present when a reply came, its status
    /// is one of `200..=299`, and its body is JSON.
    pub open spec fn document(self) -> Result<JsonValue, Fault> {
        match self {
            ResponseView::Unreachable => Err(Fault::Unreachable),
            ResponseView::Reply { status, body } => if !(200 <= status <= 299) {
                Err(Fault::Status(status))
            } else {
                match body {
                    Some(json) => Ok(json),
                    None => Err(Fault::NotJson),
                }
            },
        }
    }
}

impl Response {
    /// The JSON document of this reply, or why there is none.
    pub fn document(&self) -> (document: Result<&Json, Fault>)
        ensures
            match document {
                Ok(json) => self@.document() == Ok::<JsonValue, Fault>(json@),
                Err(fault) => self@.document() == Err::<JsonValue, Fault>(fault),
            },
    {
        match self {
            Response::Unreachable => Err(Fault::Unreachable),
            Response::Reply { status, body } => {
                if *status < 200 || *status > 299 {
                    Err(Fault::Status(*status))
                } else {
                    match body {
                        Some(json) => Ok(json),
                        None => Err(Fault::NotJson),
                    }
                }
            },
        }
    }
}

/// One child whose activity feed is synchronised.
#[derive(Clone, Debug, PartialEq, Eq)]
pub struct Student {
    pub object_id: String,
    pub first_name: String,
    pub last_name: String,
}

/// The mathematical value of a [`Student`].
pub ghost struct StudentView {
    pub object_id: Seq<char>,
    pub first_name: Seq<char>,
    pub last_name: Seq<char>,
}

impl View for Student {
    type V = StudentView;

    open spec fn view(&self) -> StudentView {
        StudentView {
            object_id: self.object_id@,
            first_name: self.first_name@,
            last_name: self.last_name@,
        }
    }
}

/// The values of a roster, child by child.
pub open spec fn students_view(students: Seq<Student>) -> Seq<StudentView> {
    Seq::new(students.len(), |i: int| students[i]@)
}

/// The text of the member `key` of `object`, where it has one that is a string.
pub open spec fn text_field(object: JsonValue, key: Seq<char>) -> Option<Seq<char>> {
    match object.field(key) {
        Some(value) => value.as_text(),
        None => None,
    }
}

/// The account identifier in the document of a "who am I" reply.
pub open spec fn user_id_of(document: JsonValue) -> Result<Seq<char>, Fault> {
    if !document.is_object() {
        Err(Fault::Shape(Part::Document))
    } else {
        match text_field(document, "object_id"@) {
            Some(id) => Ok(id),
            None => Err(Fault::Shape(Part::ObjectId)),
        }
    }
}

/// The child in one entry of the roster: the entry's member `student`, an
/// object with the three names as strings.
pub open spec fn student_of(entry: JsonValue) -> Result<StudentView, Fault> {
    match entry.field("student"@) {
        Some(student) => if !student.is_object() {
            Err(Fault::Shape(Part::Student))
        } else {
            match text_field(student, "object_id"@) {
                None => Err(Fault::Shape(Part::ObjectId)),
                Some(object_id) => match text_field(student, "first_name"@) {
                    None => Err(Fault::Shape(Part::FirstName)),
                    Some(first_name) => match text_field(student, "last_name"@) {
                        None => Err(Fault::Shape(Part::LastName)),
                        Some(last_name) => Ok(StudentView { object_id, first_name, last_name }),
                    },
                },
            }
        },
        None => Err(Fault::Shape(Part::Student)),
    }
}

/// The children of all entries, in order, or the fault of the first entry
/// that has one.
pub open spec fn students_from(entries: Seq<JsonValue>) -> Result<Seq<StudentView>, Fault>
    decreases entries.len(),
{
    if entries.len() == 0 {
        Ok(Seq::empty())
    } else {
        match students_from(entries.drop_last()) {
            Err(fault) => Err(fault),
            Ok(students) => match student_of(entries.last()) {
                Err(fault) => Err(fault),
                Ok(student) => Ok(students.push(student)),
            },
        }
    }
}

/// The roster in the document of a "guardian's children" reply.
pub open spec fn students_of(document: JsonValue) -> Result<Seq<StudentView>, Fault> {
    if !document.is_object() {
        Err(Fault::Shape(Part::Document))
    } else {
        match document.field("students"@) {
            Some(list) => match list.as_array() {
                Some(entries) => students_from(entries),
                None => Err(Fault::Shape(Part::Students)),
            },
            None => Err(Fault::Shape(Part::Students)),
        }
    }
}

impl ResponseView {
    /// The account identifier that a "who am I" reply carries.
    pub open spec fn user_id(self) -> Result<Seq<char>, Fault> {
        match self.document() {
            Ok(document) => user_id_of(document),
            Err(fault) => Err(fault),
        }
    }

    /// The roster that a "guardian's children" reply carries.
    pub open spec fn students(self) -> Result<Seq<StudentView>, Fault> {
        match self.document() {
            Ok(document) => students_of(document),
            Err(fault) => Err(fault),
        }
    }
}

/// Reads the member `key` of `object` as a string.
pub fn text_of<'a>(object: &'a Json, key: &str) -> (text: Option<&'a str>)
    ensures
        match text {
            Some(s) => text_field(object@, key@) == Some(s@),
            None => text_field(object@, key@) is None,
        },
{
    match object.get(key) {
        Some(value) => value.as_str(),
        None => None,
    }
}

fn student_from(entry: &Json) -> (student: Result<Student, Fault>)
    ensures
        match student {
            Ok(s) => student_of(entry@) == Ok::<StudentView, Fault>(s@),
            Err(fault) => student_of(entry@) == Err::<StudentView, Fault>(fault),
        },
{
    let record = match entry.get("student") {
        Some(record) => record,
        None => { return Err(Fault::Shape(Part::Student)); },
    };
    if !record.is_object() {
        return Err(Fault::Shape(Part::Student));
    }
    let object_id = match text_of(record, "object_id") {
        Some(text) => String::from_str(text),
        None => { return Err(Fault::Shape(Part::ObjectId)); },
    };
    let first_name = match text_of(record, "first_name") {
        Some(text) => String::from_str(text),
        None => { return Err(Fault::Shape(Part::FirstName)); },
    };
    let last_name = match text_of(record, "last_name") {
        Some(text) => String::from_str(text),
        None => { return Err(Fault::Shape(Part::LastName)); },
    };
    Ok(Student { object_id, first_name, last_name })
}

/// The call that begins a session with the primary credentials.
pub open spec fn sessions_start_request(email: Seq<char>, password: Seq<char>) -> RequestView {
    RequestView {
        method: Method::Post,
        url: endpoint_url("sessions/start"@),
        headers: auth_headers(),
        query: Seq::empty(),
        body: Some(authentication_value(email, password, None)),
    }
}

/// The call that creates the session, with the one-time code where one is due.
pub open spec fn sessions_request(
    email: Seq<char>,
    password: Seq<char>,
    mfa_code: Option<Seq<char>>,
) -> RequestView {
    RequestView {
        method: Method::Post,
        url: endpoint_url("sessions"@),
        headers: auth_headers(),
        query: Seq::empty(),
        body: Some(authentication_value(email, password, mfa_code)),
    }
}

/// The "who am I" call.
pub open spec fn users_me_request() -> RequestView {
    RequestView {
        method: Method::Get,
        url: endpoint_url("users/me"@),
        headers: Seq::empty(),
        query: Seq::empty(),
        body: None,
    }
}

/// The call for the children of the guardian `user_id`.
pub open spec fn guardians_students_request(user_id: Seq<char>) -> RequestView {
    RequestView {
        method: Method::Get,
        url: endpoint_url("guardians/"@ + user_id + "/students"@),
        headers: Seq::empty(),
        query: Seq::empty(),
        body: None,
    }
}

/// The call for page `page` of the activity feed of the child `student_id`,
/// in pages of `page_size` activities.
pub open spec fn students_activities_request(
    student_id: Seq<char>,
    page_size: u64,
    page: u64,
) -> RequestView {
    RequestView {
        method: Method::Get,
        url: endpoint_url("students/"@ + student_id + "/activities"@),
        headers: Seq::empty(),
        query: seq![("page_size"@, page_size), ("offset"@, page)],
        body: None,
    }
}

/// The client's side of the protocol: it holds the headers that identify it
/// and builds each call.
#[derive(Debug)]
pub struct BrightwheelClient {
    auth_headers: Vec<Header>,
}

impl BrightwheelClient {
    #[verifier::type_invariant]
    spec fn well_formed(self) -> bool {
        headers_view(self.auth_headers@) == auth_headers()
    }

    /// The headers that this client sends with the sign-in calls.
    pub closed spec fn header_set(self) -> Seq<(Seq<char>, Seq<char>)> {
        headers_view(self.auth_headers@)
    }

    /// A client with the six headers of the sign-in calls.
    pub fn new() -> (client: Self)
        ensures
            client.header_set() == auth_headers(),
    {
        let mut auth_headers: Vec<Header> = Vec::new();
        auth_headers.push(header("content-type", "application/json"));
        auth_headers.push(header("x-client-version", "106"));
        auth_headers.push(header("x-client-name", "web"));
        auth_headers.push(header("origin", "https://schools.mybrightwheel.com"));
        auth_headers.push(header("referer", "https://schools.mybrightwheel.com/sign-in"));
        auth_headers.push(
            header(
                "user-agent",
                "Mozilla/5.0 (X11; Ubuntu; Linux x86_64; rv:139.0) Gecko/20100101 Firefox/139.0",
            ),
        );
        assert(headers_view(auth_headers@) =~= self::auth_headers());
        BrightwheelClient { auth_headers }
    }

    fn copy_headers(&self) -> (headers: Vec<Header>)
        ensures
            headers_view(headers@) == auth_headers(),
    {
        proof {
            use_type_invariant(self);
        }
        let mut headers: Vec<Header> = Vec::new();
        let mut i: usize = 0;
        while i < self.auth_headers.len()
            invariant
                i <= self.auth_headers.len(),
                headers.len() == i,
                forall|j: int|
                    0 <= j < i ==> headers@[j].name@ == self.auth_headers@[j].name@
                        && headers@[j].value@ == self.auth_headers@[j].value@,
            decreases self.auth_headers.len() - i,
        {
            let held = &self.auth_headers[i];
            headers.push(Header { name: held.name.clone(), value: held.value.clone() });
            i += 1;
        }
        assert(headers_view(headers@) =~= headers_view(self.auth_headers@));
        headers
    }

    /// The call that begins a session.
    pub fn post_sessions_start(&self, email: &str, password: &str) -> (request: Request)
        ensures
            request@ == sessions_start_request(email@, password@),
    {
        let request = Request {
            method: Method::Post,
            url: endpoint("sessions/start"),
            headers: self.copy_headers(),
            query: Vec::new(),
            body: Some(authentication_json(email, password, None)),
        };
        assert(query_view(request.query@) =~= Seq::empty());
        request
    }

    /// The call that creates the session.
    pub fn post_sessions(&self, email: &str, password: &str, mfa_code_opt: Option<&str>) -> (request:
        Request)
        ensures
            request@ == sessions_request(
                email@,
                password@,
                match mfa_code_opt {
                    Some(code) => Some(code@),
                    None => None,
                },
            ),
    {
        let request = Request {
            method: Method::Post,
            url: endpoint("sessions"),
            headers: self.copy_headers(),
            query: Vec::new(),
            body: Some(authentication_json(email, password, mfa_code_opt)),
        };
        assert(query_view(request.query@) =~= Seq::empty());
        request
    }

    /// The "who am I" call.
    pub fn get_users_me(&self) -> (request: Request)
        ensures
            request@ == users_me_request(),
    {
        let request = Request {
            method: Method::Get,
            url: endpoint("users/me"),
            headers: Vec::new(),
            query: Vec::new(),
            body: None,
        };
        assert(query_view(request.query@) =~= Seq::empty());
        assert(headers_view(request.headers@) =~= Seq::empty());
        request
    }

    /// The account identifier in the reply to the "who am I" call.
    pub fn get_user_id(&self, response: &Response) -> (user_id: Result<String, Fault>)
        ensures
            match user_id {
                Ok(id) => response@.user_id() == Ok::<Seq<char>, Fault>(id@),
                Err(fault) => response@.user_id() == Err::<Seq<char>, Fault>(fault),
            },
    {
        let document = match response.document() {
            Ok(document) => document,
            Err(fault) => { return Err(fault); },
        };
        if !document.is_object() {
            return Err(Fault::Shape(Part::Document));
        }
        match text_of(document, "object_id") {
            Some(id) => Ok(String::from_str(id)),
            None => Err(Fault::Shape(Part::ObjectId)),
        }
    }

    /// The call for the children of the guardian `user_id`.
    pub fn get_guardians_students(&self, user_id: &String) -> (request: Request)
        ensures
            request@ == guardians_students_request(user_id@),
    {
        let mut path = String::from_str("guardians/");
        path.append(user_id.as_str());
        path.append("/students");
        let request = Request {
            method: Method::Get,
            url: endpoint(path.as_str()),
            headers: Vec::new(),
            query: Vec::new(),
            body: None,
        };
        assert(query_view(request.query@) =~= Seq::empty());
        assert(headers_view(request.headers@) =~= Seq::empty());
        request
    }

    /// The roster in the reply to the call for a guardian's children.
    pub fn get_students(&self, response: &Response) -> (students: Result<Vec<Student>, Fault>)
        ensures
            match students {
                Ok(list) => response@.students() == Ok::<Seq<StudentView>, Fault>(
                    students_view(list@),
                ),
                Err(fault) => response@.students() == Err::<Seq<StudentView>, Fault>(fault),
            },
    {
        let document = match response.document() {
            Ok(document) => document,
            Err(fault) => { return Err(fault); },
        };
        if !document.is_object() {
            return Err(Fault::Shape(Part::Document));
        }
        let list = match document.get("students") {
            Some(list) => list,
            None => { return Err(Fault::Shape(Part::Students)); },
        };
        let entries = match list.as_array() {
            Some(entries) => entries,
            None => { return Err(Fault::Shape(Part::Students)); },
        };
        let ghost all = values_of(entries@);
        let mut students: Vec<Student> = Vec::new();
        let mut i: usize = 0;
        assert(all.take(0) =~= Seq::empty());
        assert(students_view(students@) =~= Seq::empty());
        while i < entries.len()
            invariant
                i <= entries.len(),
                all == values_of(entries@),
                students_from(all.take(i as int)) == Ok::<Seq<StudentView>, Fault>(
                    students_view(students@),
                ),
                response@.students() == students_from(all),
            decreases entries.len() - i,
        {
            assert(all.take(i + 1).drop_last() =~= all.take(i as int));
            assert(all.take(i + 1).last() == entries@[i as int]@);
            match student_from(&entries[i]) {
                Ok(student) => {
                    let ghost before = students_view(students@);
                    students.push(student);
                    assert(students_view(students@) =~= before.push(student@));
                },
                Err(fault) => {
                    proof {
                        lemma_students_from_fault(all, i + 1);
                    }
                    return Err(fault);
                },
            }
            i += 1;
        }
        assert(all.take(i as int) =~= all);
        Ok(students)
    }

    /// The call for one page of the activity feed of the child `student_id`.
    pub fn get_students_activities(&self, student_id: &String, page_size: u64, page: u64) -> (request:
        Request)
        ensures
            request@ == students_activities_request(student_id@, page_size, page),
    {
        let mut path = String::from_str("students/");
        path.append(student_id.as_str());
        path.append("/activities");
        let mut query: Vec<QueryParameter> = Vec::new();
        query.push(QueryParameter { name: String::from_str("page_size"), value: page_size });
        query.push(QueryParameter { name: String::from_str("offset"), value: page });
        let request = Request {
            method: Method::Get,
            url: endpoint(path.as_str()),
            headers: Vec::new(),
            query,
            body: None,
        };
        assert(query_view(request.query@) =~= seq![("page_size"@, page_size), ("offset"@, page)]);
        assert(headers_view(request.headers@) =~= Seq::empty());
        request
    }
}

/// A fault among the first `n` entries is the fault of the whole roster.
proof fn lemma_students_from_fault(entries: Seq<JsonValue>, n: int)
    requires
        0 <= n <= entries.len(),
        students_from(entries.take(n)) is Err,
    ensures
        students_from(entries) == students_from(entries.take(n)),
    decreases entries.len() - n,
{
    if n < entries.len() {
        assert(entries.take(n + 1).drop_last() =~= entries.take(n));
        lemma_students_from_fault(entries, n + 1);
    } else {
        assert(entries.take(n) =~= entries);
    }
}

} // verus!

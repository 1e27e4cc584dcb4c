use vstd::prelude::*;
use crate::errors::{ClientResult, Error, Failure};
use crate::models::{response_view, Frame, Request, Response};
use crate::msgpack::integer_json;
use crate::payload::{put, same_text, Json, Payload};
use crate::text::{decimal_value, lemma_decimal_value, parse_decimal};
use crate::{MaxClient, Session};

verus! {

/// The string under `token` in a payload, if there is one.
pub open spec fn token_of(payload: Json) -> Option<Seq<char>> {
    match payload.member("token"@) {
        Some(t) => t.text(),
        None => None,
    }
}

/// Whether a payload says that its token is for a registration.
pub open spec fn for_registration(payload: Json) -> bool {
    payload.member("tokenType"@) == Some(Json::Str("REGISTER"@))
}

/// The id that a node holds: an unsigned integer, or the decimal text of
/// one, as ids beyond `2^53 - 1` arrive.
pub open spec fn id_value(id: Json) -> Option<u64> {
    match id {
        Json::Str(s) => match decimal_value(s) {
            Some(n) => if n <= u64::MAX {
                Some(n as u64)
            } else {
                None
            },
            None => None,
        },
        _ => id.unsigned(),
    }
}

/// The user id in the profile that a sync returns: the id under `profile`,
/// `contact`, `id`.
pub open spec fn user_id_of(payload: Json) -> Option<u64> {
    match payload.member("profile"@) {
        Some(profile) => match profile.member("contact"@) {
            Some(contact) => match contact.member("id"@) {
                Some(id) => id_value(id),
                None => None,
            },
            None => None,
        },
        None => None,
    }
}

/// The payload that starts the authentication of a phone number.
pub open spec fn start_auth_json(phone: Seq<char>) -> Json {
    Json::Obj(
        Map::<Seq<char>, Json>::empty().insert("phone"@, Json::Str(phone)).insert(
            "type"@,
            Json::Str("START_AUTH"@),
        ).insert("language"@, Json::Str("ru"@)),
    )
}

/// The payload that submits the code that the user received.
pub open spec fn check_code_json(temp_token: Seq<char>, code: Seq<char>) -> Json {
    Json::Obj(
        Map::<Seq<char>, Json>::empty().insert("token"@, Json::Str(temp_token)).insert(
            "verifyCode"@,
            Json::Str(code),
        ).insert("authTokenType"@, Json::Str("CHECK_CODE"@)),
    )
}

/// The payload that registers a new user.
pub open spec fn register_json(first_name: Seq<char>, last_name: Option<Seq<char>>) -> Json {
    Json::Obj(
        Map::<Seq<char>, Json>::empty().insert("firstName"@, Json::Str(first_name)).insert(
            "lastName"@,
            match last_name {
                Some(name) => Json::Str(name),
                None => Json::Null,
            },
        ).insert("photoId"@, Json::Int(2981369)).insert(
            "avatarType"@,
            Json::Str("PRESET_AVATAR"@),
        ).insert("tokenType"@, Json::Str("REGISTER"@)),
    )
}

/// The payload that signs in with a session token.
pub open spec fn sync_json(token: Seq<char>) -> Json {
    Json::Obj(
        Map::<Seq<char>, Json>::empty().insert("interactive"@, Json::Bool(true)).insert(
            "token"@,
            Json::Str(token),
        ).insert("chatsSync"@, Json::Int(0)).insert("contactsSync"@, Json::Int(0)).insert(
            "presenceSync"@,
            Json::Int(0),
        ).insert("draftsSync"@, Json::Int(0)).insert("chatsCount"@, Json::Int(40)),
    )
}

impl Session {
    /// The state after the answer to `start_auth`: a returned token becomes
    /// the temporary token.
    pub open spec fn after_start_auth(self, outcome: Result<Frame, Failure>) -> Session {
        match outcome {
            Ok(resp) => match token_of(resp.payload) {
                Some(t) => Session { temp_token: Some(t), ..self },
                None => self,
            },
            Err(_) => self,
        }
    }

    /// The state after the answer to `check_code`: a returned token becomes
    /// the temporary token when it is for a registration, else the session
    /// token.
    pub open spec fn after_check_code(self, outcome: Result<Frame, Failure>) -> Session {
        match outcome {
            Ok(resp) => match token_of(resp.payload) {
                Some(t) => if for_registration(resp.payload) {
                    Session { temp_token: Some(t), ..self }
                } else {
                    Session { token: Some(t), ..self }
                },
                None => self,
            },
            Err(_) => self,
        }
    }

    /// The state after the answer to `submit_register`: a returned token
    /// becomes the session token.
    pub open spec fn after_register(self, outcome: Result<Frame, Failure>) -> Session {
        match outcome {
            Ok(resp) => match token_of(resp.payload) {
                Some(t) => Session { token: Some(t), ..self },
                None => self,
            },
            Err(_) => self,
        }
    }

    /// The state after the answer to `sync`: the id of the signed-in user
    /// is known when the profile names it.
    pub open spec fn after_sync(self, outcome: Result<Frame, Failure>) -> Session {
        match outcome {
            Ok(resp) => match user_id_of(resp.payload) {
                Some(id) => Session { user_id: Some(id), ..self },
                None => self,
            },
            Err(_) => self,
        }
    }
}

fn token_in(payload: &Payload) -> (out: Option<String>)
    ensures
        crate::text_view(out) == token_of(payload@),
{
    match payload.get("token") {
        Some(t) => match t.as_str() {
            Some(s) => Some(s.to_owned()),
            None => None,
        },
        None => None,
    }
}

fn is_for_registration(payload: &Payload) -> (out: bool)
    ensures
        out == for_registration(payload@),
{
    match payload.get("tokenType") {
        Some(t) => match t.as_str() {
            Some(s) => same_text(s, "REGISTER"),
            None => false,
        },
        None => false,
    }
}

/// Finds the user id in the profile that a sync returned.
pub fn profile_user_id(payload: &Payload) -> (out: Option<u64>)
    ensures
        out == user_id_of(payload@),
{
    match payload.get("profile") {
        Some(profile) => match profile.get("contact") {
            Some(contact) => match contact.get("id") {
                Some(id) => match id.as_str() {
                    Some(s) => parse_decimal(s),
                    None => id.as_u64(),
                },
                None => None,
            },
            None => None,
        },
        None => None,
    }
}

impl MaxClient {
    /// Registers the request that starts the authentication of a phone
    /// number.
    pub fn start_auth(&mut self, phone: String) -> (out: Request)
        requires
            old(self).wf(),
            old(self)@.seq < u64::MAX,
        ensures
            final(self).wf(),
            final(self)@ == old(self)@.registered(),
            out@ == (Frame {
                ver: 11,
                cmd: 0,
                seq: final(self)@.seq,
                opcode: 17,
                payload: start_auth_json(phone@),
            }),
    {
        let mut entries: Vec<(String, Payload)> = Vec::new();
        put(&mut entries, "phone", Payload::String(phone));
        put(&mut entries, "type", Payload::text("START_AUTH"));
        put(&mut entries, "language", Payload::text("ru"));
        self.send_and_wait(17, Payload::Object(entries), 0)
    }

    /// Takes in the answer to `start_auth`.
    pub fn start_auth_done(&mut self, outcome: &ClientResult<Response>)
        requires
            old(self).wf(),
        ensures
            final(self).wf(),
            final(self)@ == old(self)@.after_start_auth(response_view(*outcome)),
    {
        match outcome {
            Ok(resp) => match token_in(&resp.payload) {
                Some(t) => {
                    self.set_temp_token(t);
                },
                None => {},
            },
            Err(_) => {},
        }
    }

    /// Registers the request that submits the code. Without a temporary
    /// token there is nothing to submit: the state stays as it is.
    pub fn check_code(&mut self, code: String) -> (out: ClientResult<Request>)
        requires
            old(self).wf(),
            old(self)@.seq < u64::MAX,
        ensures
            final(self).wf(),
            match old(self)@.temp_token {
                Some(temp) => {
                    &&& final(self)@ == old(self)@.registered()
                    &&& out is Ok
                    &&& out->Ok_0@ == (Frame {
                        ver: 11,
                        cmd: 0,
                        seq: final(self)@.seq,
                        opcode: 18,
                        payload: check_code_json(temp, code@),
                    })
                },
                None => {
                    &&& final(self)@ == old(self)@
                    &&& out is Err
                    &&& out->Err_0@ == Failure::Other("No temporary token found"@)
                },
            },
    {
        match self.get_temp_token() {
            Some(temp) => {
                let mut entries: Vec<(String, Payload)> = Vec::new();
                put(&mut entries, "token", Payload::String(temp));
                put(&mut entries, "verifyCode", Payload::String(code));
                put(&mut entries, "authTokenType", Payload::text("CHECK_CODE"));
                Ok(self.send_and_wait(18, Payload::Object(entries), 0))
            },
            None => Err(Error::Other("No temporary token found".to_owned())),
        }
    }

    /// Takes in the answer to `check_code`.
    pub fn check_code_done(&mut self, outcome: &ClientResult<Response>)
        requires
            old(self).wf(),
        ensures
            final(self).wf(),
            final(self)@ == old(self)@.after_check_code(response_view(*outcome)),
    {
        match outcome {
            Ok(resp) => match token_in(&resp.payload) {
                Some(t) => {
                    if is_for_registration(&resp.payload) {
                        self.set_temp_token(t);
                    } else {
                        self.set_token(t);
                    }
                },
                None => {},
            },
            Err(_) => {},
        }
    }

    /// Registers the request that registers a new user.
    pub fn submit_register(&mut self, first_name: String, last_name: Option<String>) -> (out:
        Request)
        requires
            old(self).wf(),
            old(self)@.seq < u64::MAX,
        ensures
            final(self).wf(),
            final(self)@ == old(self)@.registered(),
            out@ == (Frame {
                ver: 11,
                cmd: 0,
                seq: final(self)@.seq,
                opcode: 23,
                payload: register_json(first_name@, crate::text_view(last_name)),
            }),
    {
        let last = match last_name {
            Some(name) => Payload::String(name),
            None => Payload::Null,
        };
        let mut entries: Vec<(String, Payload)> = Vec::new();
        put(&mut entries, "firstName", Payload::String(first_name));
        put(&mut entries, "lastName", last);
        put(&mut entries, "photoId", Payload::PosInt(2981369));
        put(&mut entries, "avatarType", Payload::text("PRESET_AVATAR"));
        put(&mut entries, "tokenType", Payload::text("REGISTER"));
        self.send_and_wait(23, Payload::Object(entries), 0)
    }

    /// Takes in the answer to `submit_register`.
    pub fn submit_register_done(&mut self, outcome: &ClientResult<Response>)
        requires
            old(self).wf(),
        ensures
            final(self).wf(),
            final(self)@ == old(self)@.after_register(response_view(*outcome)),
    {
        match outcome {
            Ok(resp) => match token_in(&resp.payload) {
                Some(t) => {
                    self.set_token(t);
                },
                None => {},
            },
            Err(_) => {},
        }
    }

    /// Registers the request that signs in with the session token. Without
    /// a session token there is nothing to sign in with: the state stays as
    /// it is.
    pub fn sync(&mut self) -> (out: ClientResult<Request>)
        requires
            old(self).wf(),
            old(self)@.seq < u64::MAX,
        ensures
            final(self).wf(),
            match old(self)@.token {
                Some(token) => {
                    &&& final(self)@ == old(self)@.registered()
                    &&& out is Ok
                    &&& out->Ok_0@ == (Frame {
                        ver: 11,
                        cmd: 0,
                        seq: final(self)@.seq,
                        opcode: 19,
                        payload: sync_json(token),
                    })
                },
                None => {
                    &&& final(self)@ == old(self)@
                    &&& out is Err
                    &&& out->Err_0@ == Failure::Other("No token set"@)
                },
            },
    {
        match self.get_token() {
            Some(token) => {
                let mut entries: Vec<(String, Payload)> = Vec::new();
                put(&mut entries, "interactive", Payload::Bool(true));
                put(&mut entries, "token", Payload::String(token));
                put(&mut entries, "chatsSync", Payload::PosInt(0));
                put(&mut entries, "contactsSync", Payload::PosInt(0));
                put(&mut entries, "presenceSync", Payload::PosInt(0));
                put(&mut entries, "draftsSync", Payload::PosInt(0));
                put(&mut entries, "chatsCount", Payload::PosInt(40));
                Ok(self.send_and_wait(19, Payload::Object(entries), 0))
            },
            None => Err(Error::Other("No token set".to_owned())),
        }
    }

    /// Takes in the answer to `sync`.
    pub fn sync_done(&mut self, outcome: &ClientResult<Response>)
        requires
            old(self).wf(),
        ensures
            final(self).wf(),
            final(self)@ == old(self)@.after_sync(response_view(*outcome)),
    {
        match outcome {
            Ok(resp) => match profile_user_id(&resp.payload) {
                Some(id) => {
                    self.set_user_id(id);
                },
                None => {},
            },
            Err(_) => {},
        }
    }
}

/// A response whose payload has a member `error` reaches the caller as the
/// API error with that payload, and taking it in leaves the tokens and the
/// user id, like all the state, as they were.
pub proof fn lemma_api_error_keeps_state(s: Session, resp: Frame)
    requires
        resp.payload.member("error"@) is Some,
    ensures
        MaxClient::checked(resp) == Err::<Frame, Failure>(Failure::ApiResponse(resp.payload)),
        s.after_start_auth(MaxClient::checked(resp)) == s,
        s.after_check_code(MaxClient::checked(resp)) == s,
        s.after_register(MaxClient::checked(resp)) == s,
        s.after_sync(MaxClient::checked(resp)) == s,
{
}

/// An id survives the mobile decoder: whether it arrives as a number or,
/// beyond `2^53 - 1`, as its decimal text, the same id is read from it.
pub proof fn lemma_id_survives_decoding(id: u64)
    ensures
        id_value(
            integer_json(
                Some(id),
                if id <= i64::MAX {
                    Some(id as i64)
                } else {
                    None
                },
            ),
        ) == Some(id),
{
    lemma_decimal_value(id as nat);
}

} // verus!

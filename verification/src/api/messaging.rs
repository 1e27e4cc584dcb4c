use vstd::prelude::*;
use crate::errors::written;
use crate::json::{json_text, to_json_text};
use crate::models::{Frame, Request};
use crate::payload::{put, Json, Payload};
use crate::{now_millis, MaxClient};

verus! {

/// The member `key` of the optional arguments of a message, if they are
/// given and have it.
pub open spec fn argument(args: Option<Json>, key: Seq<char>) -> Option<Json> {
    match args {
        Some(tree) => tree.member(key),
        None => None,
    }
}

/// What a message links to: the message it replies to, or nothing.
pub open spec fn link_json(args: Option<Json>) -> Json {
    match argument(args, "replyTo"@) {
        Some(id) => Json::Obj(
            Map::<Seq<char>, Json>::empty().insert("type"@, Json::Str("REPLY"@)).insert(
                "messageId"@,
                Json::Str(written(json_text(id))),
            ),
        ),
        None => Json::Null,
    }
}

/// The payload that sends a message written at the time `now`.
pub open spec fn send_message_json(chat_id: i64, text: Seq<char>, args: Option<Json>, now: i64)
    -> Json {
    Json::Obj(
        Map::<Seq<char>, Json>::empty().insert("chatId"@, Json::Int(chat_id as int)).insert(
            "message"@,
            Json::Obj(
                Map::<Seq<char>, Json>::empty().insert("text"@, Json::Str(text)).insert(
                    "cid"@,
                    Json::Int(now as int),
                ).insert("elements"@, Json::Arr(Seq::empty())).insert(
                    "attaches"@,
                    match argument(args, "attaches"@) {
                        Some(list) => list,
                        None => Json::Arr(Seq::empty()),
                    },
                ).insert("link"@, link_json(args)),
            ),
        ).insert(
            "notify"@,
            match argument(args, "notify"@) {
                Some(flag) => flag,
                None => Json::Bool(true),
            },
        ),
    )
}

/// The time from which history is fetched when the caller names none: the
/// time of the request as an unsigned number.
pub open spec fn time_as_unsigned(now: i64) -> u64 {
    if now >= 0 {
        now as u64
    } else {
        (now + 0x1_0000_0000_0000_0000) as u64
    }
}

/// The payload that fetches the history of a chat.
pub open spec fn fetch_history_json(
    chat_id: i64,
    from_time: Option<u64>,
    forward: u32,
    backward: u32,
    now: i64,
) -> Json {
    Json::Obj(
        Map::<Seq<char>, Json>::empty().insert("chatId"@, Json::Int(chat_id as int)).insert(
            "from"@,
            Json::Int(
                match from_time {
                    Some(t) => t as int,
                    None => time_as_unsigned(now) as int,
                },
            ),
        ).insert("forward"@, Json::Int(forward as int)).insert(
            "backward"@,
            Json::Int(backward as int),
        ).insert("getMessages"@, Json::Bool(true)),
    )
}

/// The payload that puts a reaction on a message.
pub open spec fn add_reaction_json(chat_id: i64, message_id: Seq<char>, reaction: Seq<char>)
    -> Json {
    Json::Obj(
        Map::<Seq<char>, Json>::empty().insert("chatId"@, Json::Int(chat_id as int)).insert(
            "messageId"@,
            Json::Str(message_id),
        ).insert(
            "reaction"@,
            Json::Obj(
                Map::<Seq<char>, Json>::empty().insert(
                    "reaction_type"@,
                    Json::Str("EMOJI"@),
                ).insert("id"@, Json::Str(reaction)),
            ),
        ),
    )
}

/// The payload that takes the reaction off a message.
pub open spec fn remove_reaction_json(chat_id: i64, message_id: Seq<char>) -> Json {
    Json::Obj(
        Map::<Seq<char>, Json>::empty().insert("chatId"@, Json::Int(chat_id as int)).insert(
            "messageId"@,
            Json::Str(message_id),
        ),
    )
}

/// The model of optional arguments.
pub open spec fn args_view(args: Option<Payload>) -> Option<Json> {
    match args {
        Some(tree) => Some(tree@),
        None => None,
    }
}

fn argument_of<'a>(args: &'a Option<Payload>, key: &str) -> (out: Option<&'a Payload>)
    ensures
        match out {
            Some(found) => argument(args_view(*args), key@) == Some(found@),
            None => argument(args_view(*args), key@) is None,
        },
{
    match args {
        Some(tree) => tree.get(key),
        None => None,
    }
}

fn empty_list() -> (out: Payload)
    ensures
        out@ == Json::Arr(Seq::empty()),
{
    let items: Vec<Payload> = Vec::new();
    Payload::Array(items)
}

impl MaxClient {
    /// Registers the request that sends a message written at the time `now`.
    /// The optional arguments are an object that may name `attaches`,
    /// `replyTo` and `notify`.
    pub fn send_message_at(&mut self, chat_id: i64, text: String, args: Option<Payload>, now: i64)
        -> (out: Request)
        requires
            old(self).wf(),
            old(self)@.seq < u64::MAX,
        ensures
            final(self).wf(),
            final(self)@ == old(self)@.registered(),
            out@ == (Frame {
                ver: 11,
                cmd: 0,
                seq: final(self)@.seq,
                opcode: 64,
                payload: send_message_json(chat_id, text@, args_view(args), now),
            }),
    {
        let attaches = match argument_of(&args, "attaches") {
            Some(list) => list.clone(),
            None => empty_list(),
        };
        let link = match argument_of(&args, "replyTo") {
            Some(id) => {
                let id_text = match to_json_text(id) {
                    Ok(s) => s,
                    Err(s) => s,
                };
                let mut entries: Vec<(String, Payload)> = Vec::new();
                put(&mut entries, "type", Payload::text("REPLY"));
                put(&mut entries, "messageId", Payload::String(id_text));
                Payload::Object(entries)
            },
            None => Payload::Null,
        };
        let notify = match argument_of(&args, "notify") {
            Some(flag) => flag.clone(),
            None => Payload::Bool(true),
        };
        let mut message: Vec<(String, Payload)> = Vec::new();
        put(&mut message, "text", Payload::String(text));
        put(&mut message, "cid", Payload::NegInt(now));
        put(&mut message, "elements", empty_list());
        put(&mut message, "attaches", attaches);
        put(&mut message, "link", link);
        let mut entries: Vec<(String, Payload)> = Vec::new();
        put(&mut entries, "chatId", Payload::NegInt(chat_id));
        put(&mut entries, "message", Payload::Object(message));
        put(&mut entries, "notify", notify);
        self.send_and_wait(64, Payload::Object(entries), 0)
    }

    /// Registers the request that sends a message, written at the time of
    /// the call.
    pub fn send_message(&mut self, chat_id: i64, text: String, args: Option<Payload>) -> (out:
        Request)
        requires
            old(self).wf(),
            old(self)@.seq < u64::MAX,
        ensures
            final(self).wf(),
            final(self)@ == old(self)@.registered(),
            exists|now: i64|
                out@ == (Frame {
                    ver: 11,
                    cmd: 0,
                    seq: final(self)@.seq,
                    opcode: 64,
                    payload: send_message_json(chat_id, text@, args_view(args), now),
                }),
    {
        self.send_message_at(chat_id, text, args, now_millis())
    }

    /// Registers the request that fetches the history of a chat around
    /// `from_time`, or around `now` when no time is named.
    pub fn fetch_history_at(
        &mut self,
        chat_id: i64,
        from_time: Option<u64>,
        forward: u32,
        backward: u32,
        now: i64,
    ) -> (out: Request)
        requires
            old(self).wf(),
            old(self)@.seq < u64::MAX,
        ensures
            final(self).wf(),
            final(self)@ == old(self)@.registered(),
            out@ == (Frame {
                ver: 11,
                cmd: 0,
                seq: final(self)@.seq,
                opcode: 49,
                payload: fetch_history_json(chat_id, from_time, forward, backward, now),
            }),
    {
        let from = match from_time {
            Some(t) => t,
            None => if now >= 0 {
                now as u64
            } else {
                (now as i128 + 0x1_0000_0000_0000_0000i128) as u64
            },
        };
        let mut entries: Vec<(String, Payload)> = Vec::new();
        put(&mut entries, "chatId", Payload::NegInt(chat_id));
        put(&mut entries, "from", Payload::PosInt(from));
        put(&mut entries, "forward", Payload::PosInt(forward as u64));
        put(&mut entries, "backward", Payload::PosInt(backward as u64));
        put(&mut entries, "getMessages", Payload::Bool(true));
        self.send_and_wait(49, Payload::Object(entries), 0)
    }

    /// Registers the request that fetches the history of a chat, with the
    /// time of the call in place of a time that is not named.
    pub fn fetch_history(
        &mut self,
        chat_id: i64,
        from_time: Option<u64>,
        forward: u32,
        backward: u32,
    ) -> (out: Request)
        requires
            old(self).wf(),
            old(self)@.seq < u64::MAX,
        ensures
            final(self).wf(),
            final(self)@ == old(self)@.registered(),
            exists|now: i64|
                out@ == (Frame {
                    ver: 11,
                    cmd: 0,
                    seq: final(self)@.seq,
                    opcode: 49,
                    payload: fetch_history_json(chat_id, from_time, forward, backward, now),
                }),
    {
        self.fetch_history_at(chat_id, from_time, forward, backward, now_millis())
    }

    /// Registers the request that puts a reaction on a message.
    pub fn add_reaction(&mut self, chat_id: i64, message_id: String, reaction: String) -> (out:
        Request)
        requires
            old(self).wf(),
            old(self)@.seq < u64::MAX,
        ensures
            final(self).wf(),
            final(self)@ == old(self)@.registered(),
            out@ == (Frame {
                ver: 11,
                cmd: 0,
                seq: final(self)@.seq,
                opcode: 178,
                payload: add_reaction_json(chat_id, message_id@, reaction@),
            }),
    {
        let mut kind: Vec<(String, Payload)> = Vec::new();
        put(&mut kind, "reaction_type", Payload::text("EMOJI"));
        put(&mut kind, "id", Payload::String(reaction));
        let mut entries: Vec<(String, Payload)> = Vec::new();
        put(&mut entries, "chatId", Payload::NegInt(chat_id));
        put(&mut entries, "messageId", Payload::String(message_id));
        put(&mut entries, "reaction", Payload::Object(kind));
        self.send_and_wait(178, Payload::Object(entries), 0)
    }

    /// Registers the request that takes the reaction off a message.
    pub fn remove_reaction(&mut self, chat_id: i64, message_id: String) -> (out: Request)
        requires
            old(self).wf(),
            old(self)@.seq < u64::MAX,
        ensures
            final(self).wf(),
            final(self)@ == old(self)@.registered(),
            out@ == (Frame {
                ver: 11,
                cmd: 0,
                seq: final(self)@.seq,
                opcode: 179,
                payload: remove_reaction_json(chat_id, message_id@),
            }),
    {
        let mut entries: Vec<(String, Payload)> = Vec::new();
        put(&mut entries, "chatId", Payload::NegInt(chat_id));
        put(&mut entries, "messageId", Payload::String(message_id));
        self.send_and_wait(179, Payload::Object(entries), 0)
    }
}

} // verus!

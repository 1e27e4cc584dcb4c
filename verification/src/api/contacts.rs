use vstd::prelude::*;
use crate::models::{Frame, Request};
use crate::payload::{items_view, lemma_items_view, put, Json, Payload};
use crate::MaxClient;

verus! {

/// The payload that looks a contact up by phone number.
pub open spec fn get_by_phone_json(phone: Seq<char>) -> Json {
    Json::Obj(Map::<Seq<char>, Json>::empty().insert("phone"@, Json::Str(phone)))
}

/// The payload that fetches the contacts with the given ids.
pub open spec fn fetch_contacts_json(user_ids: Seq<u64>) -> Json {
    Json::Obj(
        Map::<Seq<char>, Json>::empty().insert(
            "contactIds"@,
            Json::Arr(Seq::new(user_ids.len(), |i: int| Json::Int(user_ids[i] as int))),
        ),
    )
}

/// The payload that adds or removes a contact.
pub open spec fn contact_action_json(user_id: u64, action: Seq<char>) -> Json {
    Json::Obj(
        Map::<Seq<char>, Json>::empty().insert("contactId"@, Json::Int(user_id as int)).insert(
            "action"@,
            Json::Str(action),
        ),
    )
}

fn id_list(user_ids: &Vec<u64>) -> (out: Payload)
    ensures
        out@ == Json::Arr(Seq::new(user_ids@.len(), |i: int| Json::Int(user_ids@[i] as int))),
{
    let mut items: Vec<Payload> = Vec::new();
    let mut i: usize = 0;
    while i < user_ids.len()
        invariant
            i <= user_ids@.len(),
            items@.len() == i,
            forall|j: int| 0 <= j < i ==> #[trigger] items@[j] == Payload::PosInt(user_ids@[j]),
        decreases user_ids@.len() - i,
    {
        items.push(Payload::PosInt(user_ids[i]));
        i = i + 1;
    }
    proof {
        lemma_items_view(items@);
        assert(items_view(items@) =~= Seq::new(
            user_ids@.len(),
            |i: int| Json::Int(user_ids@[i] as int),
        ));
    }
    Payload::Array(items)
}

impl MaxClient {
    /// Registers the request that looks a contact up by phone number.
    pub fn get_by_phone(&mut self, phone: String) -> (out: Request)
        requires
            old(self).wf(),
            old(self)@.seq < u64::MAX,
        ensures
            final(self).wf(),
            final(self)@ == old(self)@.registered(),
            out@ == (Frame {
                ver: 11,
                cmd: 0,
                seq: final(self)@.seq,
                opcode: 46,
                payload: get_by_phone_json(phone@),
            }),
    {
        let mut entries: Vec<(String, Payload)> = Vec::new();
        put(&mut entries, "phone", Payload::String(phone));
        self.send_and_wait(46, Payload::Object(entries), 0)
    }

    /// Registers the request that fetches the contacts with the given ids.
    pub fn fetch_contacts(&mut self, user_ids: Vec<u64>) -> (out: Request)
        requires
            old(self).wf(),
            old(self)@.seq < u64::MAX,
        ensures
            final(self).wf(),
            final(self)@ == old(self)@.registered(),
            out@ == (Frame {
                ver: 11,
                cmd: 0,
                seq: final(self)@.seq,
                opcode: 32,
                payload: fetch_contacts_json(user_ids@),
            }),
    {
        let mut entries: Vec<(String, Payload)> = Vec::new();
        put(&mut entries, "contactIds", id_list(&user_ids));
        self.send_and_wait(32, Payload::Object(entries), 0)
    }

    /// Registers the request that adds a contact.
    pub fn add_contact(&mut self, user_id: u64) -> (out: Request)
        requires
            old(self).wf(),
            old(self)@.seq < u64::MAX,
        ensures
            final(self).wf(),
            final(self)@ == old(self)@.registered(),
            out@ == (Frame {
                ver: 11,
                cmd: 0,
                seq: final(self)@.seq,
                opcode: 34,
                payload: contact_action_json(user_id, "ADD"@),
            }),
    {
        let mut entries: Vec<(String, Payload)> = Vec::new();
        put(&mut entries, "contactId", Payload::PosInt(user_id));
        put(&mut entries, "action", Payload::text("ADD"));
        self.send_and_wait(34, Payload::Object(entries), 0)
    }

    /// Registers the request that removes a contact.
    pub fn delete_contact(&mut self, user_id: u64) -> (out: Request)
        requires
            old(self).wf(),
            old(self)@.seq < u64::MAX,
        ensures
            final(self).wf(),
            final(self)@ == old(self)@.registered(),
            out@ == (Frame {
                ver: 11,
                cmd: 0,
                seq: final(self)@.seq,
                opcode: 34,
                payload: contact_action_json(user_id, "REMOVE"@),
            }),
    {
        let mut entries: Vec<(String, Payload)> = Vec::new();
        put(&mut entries, "contactId", Payload::PosInt(user_id));
        put(&mut entries, "action", Payload::text("REMOVE"));
        self.send_and_wait(34, Payload::Object(entries), 0)
    }
}

} // verus!

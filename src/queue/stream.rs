//! Verified parts of the broker-stream backends: the table of in-flight jobs that
//! maps a job id to the broker's entry id (acknowledgements must name the entry, not
//! the job), the reading of a group-read reply with its delivery count, and the
//! tolerated group-creation error. A job's delivery count travels with its stream
//! entry in a `deliveries` field, which a re-added entry carries forward.

use vstd::prelude::*;
use crate::queue::keyed::KeyedTable;
use crate::text::{contains_str, decimal, decimal_text, digits_value, has_substring, is_u32_decimal, lemma_decimal_round_trip, parse_u32};

verus! {

/// A delivered, not yet settled stream entry: the broker's entry id, the payload
/// text it carried and how many times its job has been delivered.
pub struct InflightEntry {
    pub entry_id: String,
    pub payload: String,
    pub attempts: u32,
}

/// In-flight jobs of one consumer process, by job id.
pub struct InflightEntries {
    table: KeyedTable<InflightEntry>,
}

/// An in-flight entry as it appears in the table's view.
pub open spec fn inflight_view(e: InflightEntry) -> (Seq<char>, Seq<char>, u32) {
    (e.entry_id@, e.payload@, e.attempts)
}

impl View for InflightEntries {
    type V = Map<Seq<char>, (Seq<char>, Seq<char>, u32)>;

    closed spec fn view(&self) -> Map<Seq<char>, (Seq<char>, Seq<char>, u32)> {
        self.table@.map_values(|e: InflightEntry| inflight_view(e))
    }
}

impl InflightEntries {
    /// The table is well formed.
    pub closed spec fn wf(&self) -> bool {
        self.table.wf()
    }

    /// No job in flight.
    pub fn new() -> (r: Self)
        ensures
            r.wf(),
            r@ == Map::<Seq<char>, (Seq<char>, Seq<char>, u32)>::empty(),
    {
        let r = InflightEntries { table: KeyedTable::new() };
        assert(r@ =~= Map::empty());
        r
    }

    /// Records that `job_id` was delivered, for the `attempts`-th time, as entry
    /// `entry_id` carrying `payload`.
    pub fn record(&mut self, job_id: String, entry_id: String, payload: String, attempts: u32)
        requires
            old(self).wf(),
        ensures
            final(self).wf(),
            final(self)@ == old(self)@.insert(job_id@, (entry_id@, payload@, attempts)),
    {
        let ghost before = self@;
        let ghost k = job_id@;
        let ghost v = (entry_id@, payload@, attempts);
        self.table.insert(job_id, InflightEntry { entry_id, payload, attempts });
        assert(self@ =~= before.insert(k, v));
    }

    /// Takes the entry of `job_id` out of the table, if it is in flight.
    pub fn settle(&mut self, job_id: &str) -> (r: Option<InflightEntry>)
        requires
            old(self).wf(),
        ensures
            final(self).wf(),
            old(self)@.contains_key(job_id@) ==> (r matches Some(e)
                && inflight_view(e) == old(self)@[job_id@]
                && final(self)@ == old(self)@.remove(job_id@)),
            !old(self)@.contains_key(job_id@) ==> r is None && final(self)@ == old(self)@,
    {
        let ghost before = self@;
        let r = self.table.remove(job_id);
        assert(r is Some ==> self@ =~= before.remove(job_id@));
        r
    }

    /// Whether `job_id` is in flight.
    pub fn contains(&self, job_id: &str) -> (r: bool)
        requires
            self.wf(),
        ensures
            r == self@.contains_key(job_id@),
    {
        self.table.contains_key(job_id)
    }
}

/// The error text of a group creation says that the group exists already, which
/// counts as success.
pub open spec fn says_group_exists(msg: Seq<char>) -> bool {
    has_substring(msg, "BUSYGROUP"@) || has_substring(msg, "already exists"@)
}

/// Whether a group-creation error only says that the group exists already.
pub fn is_group_exists_error(msg: &str) -> (r: bool)
    ensures
        r == says_group_exists(msg@),
{
    contains_str(msg, "BUSYGROUP") || contains_str(msg, "already exists")
}

/// A broker reply, as far as a group read is concerned.
pub enum Reply {
    Null,
    Text(String),
    List(Vec<Reply>),
    Other,
}

/// The text of a reply, or the empty text when it is not text.
pub open spec fn text_of(r: Reply) -> Seq<char> {
    match r {
        Reply::Text(s) => s@,
        _ => Seq::empty(),
    }
}

/// The value of the first field called `name` among the field/value pairs of `fields`
/// that start at an even index from `i` on.
pub open spec fn field_from(fields: Seq<Reply>, name: Seq<char>, i: int) -> Option<Seq<char>>
    decreases fields.len() - i,
{
    if i < 0 || i + 1 >= fields.len() {
        None
    } else if text_of(fields[i]) == name {
        Some(text_of(fields[i + 1]))
    } else {
        field_from(fields, name, i + 2)
    }
}

/// The number of earlier deliveries that an entry's `deliveries` field records; an
/// entry without a well-formed count has had none.
pub open spec fn recorded_deliveries(fields: Seq<Reply>) -> u32 {
    match field_from(fields, "deliveries"@, 0) {
        Some(t) => if is_u32_decimal(t) { digits_value(t) as u32 } else { 0 },
        None => 0,
    }
}

/// The delivery count after one more delivery (saturating).
pub open spec fn next_delivery(prev: u32) -> u32 {
    if prev < u32::MAX { (prev + 1) as u32 } else { prev }
}

/// The entry id, payload and delivery count of one stream entry
/// `[id, [field, value, ...]]`, if it has a payload field. The count is one more than
/// the deliveries that the entry records.
pub open spec fn entry_delivery(entry: Reply) -> Option<(Seq<char>, Seq<char>, u32)> {
    match entry {
        Reply::List(parts) => if parts@.len() >= 2 {
            match parts@[1] {
                Reply::List(fields) => match field_from(fields@, "payload"@, 0) {
                    Some(p) => Some((text_of(parts@[0]), p, next_delivery(recorded_deliveries(fields@)))),
                    None => None,
                },
                _ => None,
            }
        } else {
            None
        },
        _ => None,
    }
}

/// The first entry with a payload among `entries`, from index `j` on.
pub open spec fn first_entry_from(entries: Seq<Reply>, j: int) -> Option<(Seq<char>, Seq<char>, u32)>
    decreases entries.len() - j,
{
    if j < 0 || j >= entries.len() {
        None
    } else if entry_delivery(entries[j]) is Some {
        entry_delivery(entries[j])
    } else {
        first_entry_from(entries, j + 1)
    }
}

/// The first entry with a payload in one stream `[key, [entry, ...]]`.
pub open spec fn stream_delivery(stream: Reply) -> Option<(Seq<char>, Seq<char>, u32)> {
    match stream {
        Reply::List(parts) => if parts@.len() >= 2 {
            match parts@[1] {
                Reply::List(entries) => first_entry_from(entries@, 0),
                _ => None,
            }
        } else {
            None
        },
        _ => None,
    }
}

/// The first entry with a payload among `streams`, from index `j` on.
pub open spec fn first_stream_from(streams: Seq<Reply>, j: int) -> Option<(Seq<char>, Seq<char>, u32)>
    decreases streams.len() - j,
{
    if j < 0 || j >= streams.len() {
        None
    } else if stream_delivery(streams[j]) is Some {
        stream_delivery(streams[j])
    } else {
        first_stream_from(streams, j + 1)
    }
}

/// The first delivered entry of a group-read reply `[[key, [[id, [field, value,
/// ...]], ...]], ...]` that carries a payload field: its entry id, payload text and
/// delivery count.
pub open spec fn read_reply_delivery(reply: Reply) -> Option<(Seq<char>, Seq<char>, u32)> {
    match reply {
        Reply::List(streams) => first_stream_from(streams@, 0),
        _ => None,
    }
}

/// One delivery of a stream entry.
pub struct Delivery {
    pub entry_id: String,
    pub payload: String,
    pub attempts: u32,
}

/// A delivery as it appears in the spec functions.
pub open spec fn delivery_view(d: Delivery) -> (Seq<char>, Seq<char>, u32) {
    (d.entry_id@, d.payload@, d.attempts)
}

/// The delivery count after one more delivery: `prev + 1`, saturating.
pub fn next_delivery_count(prev: u32) -> (r: u32)
    ensures
        r == next_delivery(prev),
{
    if prev < u32::MAX { prev + 1 } else { prev }
}

/// The text of the `deliveries` field for an entry whose job has been delivered
/// `attempts` times.
pub fn deliveries_field(attempts: u32) -> (r: String)
    ensures
        r@ == decimal(attempts as nat),
{
    decimal_text(attempts)
}

/// An entry re-added with the `deliveries` field written from its count is read back
/// with that count, so its next delivery counts one more.
pub proof fn lemma_deliveries_round_trip(attempts: u32, fields: Seq<Reply>)
    requires
        field_from(fields, "deliveries"@, 0) == Some(decimal(attempts as nat)),
    ensures
        recorded_deliveries(fields) == attempts,
        attempts < u32::MAX ==> next_delivery(recorded_deliveries(fields)) == attempts + 1,
{
    lemma_decimal_round_trip(attempts as nat);
}

fn text_or_empty(r: &Reply) -> (s: String)
    ensures
        s@ == text_of(*r),
{
    match r {
        Reply::Text(s) => s.clone(),
        _ => String::new(),
    }
}

fn find_field(fields: &Vec<Reply>, name: &str) -> (r: Option<String>)
    ensures
        r matches Some(s) ==> field_from(fields@, name@, 0) == Some(s@),
        r is None ==> field_from(fields@, name@, 0) is None,
{
    let key = name.to_owned();
    let mut i: usize = 0;
    while i < fields.len()
        invariant
            i % 2 == 0,
            key@ == name@,
            field_from(fields@, name@, 0) == field_from(fields@, name@, i as int),
        decreases fields@.len() - i,
    {
        if i + 1 >= fields.len() {
            return None;
        }
        let field = text_or_empty(&fields[i]);
        if field == key {
            return Some(text_or_empty(&fields[i + 1]));
        }
        i = i + 2;
    }
    None
}

fn deliveries_recorded(fields: &Vec<Reply>) -> (r: u32)
    ensures
        r == recorded_deliveries(fields@),
{
    match find_field(fields, "deliveries") {
        Some(t) => match parse_u32(t.as_str()) {
            Some(n) => n,
            None => 0,
        },
        None => 0,
    }
}

fn find_in_entry(entry: &Reply) -> (r: Option<Delivery>)
    ensures
        r matches Some(d) ==> entry_delivery(*entry) == Some(delivery_view(d)),
        r is None ==> entry_delivery(*entry) is None,
{
    match entry {
        Reply::List(parts) => {
            if parts.len() < 2 {
                return None;
            }
            match &parts[1] {
                Reply::List(fields) => match find_field(fields, "payload") {
                    Some(p) => {
                        let prev = deliveries_recorded(fields);
                        Some(Delivery {
                            entry_id: text_or_empty(&parts[0]),
                            payload: p,
                            attempts: next_delivery_count(prev),
                        })
                    },
                    None => None,
                },
                _ => None,
            }
        },
        _ => None,
    }
}

fn find_in_entries(entries: &Vec<Reply>) -> (r: Option<Delivery>)
    ensures
        r matches Some(d) ==> first_entry_from(entries@, 0) == Some(delivery_view(d)),
        r is None ==> first_entry_from(entries@, 0) is None,
{
    let mut j: usize = 0;
    while j < entries.len()
        invariant
            j <= entries@.len(),
            first_entry_from(entries@, 0) == first_entry_from(entries@, j as int),
        decreases entries@.len() - j,
    {
        match find_in_entry(&entries[j]) {
            Some(d) => {
                return Some(d);
            },
            None => {},
        }
        j = j + 1;
    }
    None
}

fn find_in_stream(stream: &Reply) -> (r: Option<Delivery>)
    ensures
        r matches Some(d) ==> stream_delivery(*stream) == Some(delivery_view(d)),
        r is None ==> stream_delivery(*stream) is None,
{
    match stream {
        Reply::List(parts) => {
            if parts.len() < 2 {
                return None;
            }
            match &parts[1] {
                Reply::List(entries) => find_in_entries(entries),
                _ => None,
            }
        },
        _ => None,
    }
}

/// The first delivered entry of a group-read reply that carries a payload field: its
/// entry id, payload text and delivery count, which is one more than the count in the
/// entry's `deliveries` field (none recorded counts as zero). A null reply, or one
/// without such an entry, gives `None`; a part that is not text where text is expected
/// reads as empty text.
pub fn find_read_delivery(reply: &Reply) -> (r: Option<Delivery>)
    ensures
        r matches Some(d) ==> read_reply_delivery(*reply) == Some(delivery_view(d)),
        r is None ==> read_reply_delivery(*reply) is None,
{
    match reply {
        Reply::List(streams) => {
            let mut j: usize = 0;
            while j < streams.len()
                invariant
                    j <= streams@.len(),
                    read_reply_delivery(*reply) == first_stream_from(streams@, 0),
                    first_stream_from(streams@, 0) == first_stream_from(streams@, j as int),
                decreases streams@.len() - j,
            {
                match find_in_stream(&streams[j]) {
                    Some(d) => {
                        return Some(d);
                    },
                    None => {},
                }
                j = j + 1;
            }
            None
        },
        _ => None,
    }
}

} // verus!

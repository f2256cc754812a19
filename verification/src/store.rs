//! The persisted message record, and the replay of recent history.
//!
//! The store itself is an outside service. It hands this library records as
//! plain values: identifiers as 128-bit numbers, times in milliseconds since
//! the epoch.

use crate::ids::{format_uuid, uuid_text};
use crate::schemas::{payload_views, MessagePayload, PayloadView};
use crate::text::{fields, split, string_views};
use vstd::prelude::*;

verus! {

/// A chat message as the store holds it.
#[derive(Debug, PartialEq, Eq)]
pub struct ChatMessage {
    /// Identifier that the store assigned.
    pub message_id: u128,
    /// The room's grouping key.
    pub chat_id: u128,
    /// The author.
    pub user_id: u128,
    /// The text.
    pub content: String,
    /// Creation time, in milliseconds since the epoch.
    pub created_at: i64,
    /// Time of the last edit or of the deletion, if there was one.
    pub updated_at: Option<i64>,
    /// Whether the message was soft-deleted.
    pub is_deleted: bool,
}

/// The mathematical model of a record.
pub struct RecordView {
    pub message_id: u128,
    pub chat_id: u128,
    pub user_id: u128,
    pub content: Seq<char>,
    pub created_at: i64,
    pub updated_at: Option<i64>,
    pub is_deleted: bool,
}

impl View for ChatMessage {
    type V = RecordView;

    open spec fn view(&self) -> RecordView {
        RecordView {
            message_id: self.message_id,
            chat_id: self.chat_id,
            user_id: self.user_id,
            content: self.content@,
            created_at: self.created_at,
            updated_at: self.updated_at,
            is_deleted: self.is_deleted,
        }
    }
}

/// The views of a sequence of records.
pub open spec fn record_views(records: Seq<ChatMessage>) -> Seq<RecordView> {
    Seq::new(records.len(), |i: int| records[i]@)
}

impl ChatMessage {
    /// The record of a message that was just created: never edited, not
    /// deleted.
    pub fn new(message_id: u128, chat_id: u128, user_id: u128, content: String, created_at: i64) -> (record:
        ChatMessage)
        ensures
            record@ == (RecordView {
                message_id,
                chat_id,
                user_id,
                content: content@,
                created_at,
                updated_at: None,
                is_deleted: false,
            }),
    {
        ChatMessage {
            message_id,
            chat_id,
            user_id,
            content,
            created_at,
            updated_at: None,
            is_deleted: false,
        }
    }

    /// Replaces the text. The identifier, the room, the author and the
    /// creation time stay as they are: the store orders and finds the record
    /// by them.
    pub fn edit(&mut self, new_content: String, updated_at: i64)
        ensures
            final(self)@ == (RecordView {
                content: new_content@,
                updated_at: Some(updated_at),
                ..old(self)@
            }),
    {
        self.content = new_content;
        self.updated_at = Some(updated_at);
    }

    /// Marks the record as deleted. Nothing is removed, and nothing but the
    /// flag and the update time changes.
    pub fn soft_delete(&mut self, updated_at: i64)
        ensures
            final(self)@ == (RecordView {
                is_deleted: true,
                updated_at: Some(updated_at),
                ..old(self)@
            }),
    {
        self.is_deleted = true;
        self.updated_at = Some(updated_at);
    }
}

/// The event that replays a record: it carries the store's identifier and
/// creation time, and names the author by the text of the author's
/// identifier.
pub open spec fn event_of(record: RecordView) -> PayloadView {
    PayloadView {
        id: record.message_id,
        username: uuid_text(record.user_id),
        text: record.content,
        ts: record.created_at as u64,
    }
}

/// Builds the event that replays `record`.
pub fn record_event(record: &ChatMessage) -> (event: MessagePayload)
    ensures
        event@ == event_of(record@),
{
    MessagePayload {
        id: record.message_id,
        username: format_uuid(record.user_id),
        text: record.content.clone(),
        ts: #[verifier::truncate]
        (record.created_at as u64),
    }
}

/// The records that are not deleted, in the order given.
pub open spec fn not_deleted(records: Seq<RecordView>) -> Seq<RecordView> {
    records.filter(|record: RecordView| !record.is_deleted)
}

/// The replay of `records`, which are ordered newest first: of those that
/// are not deleted the `limit` most recent, or all if there are fewer, each
/// as its event, in chronological order.
pub open spec fn history_window(records: Seq<RecordView>, limit: nat) -> Seq<PayloadView> {
    not_deleted(records).take(
        if limit < not_deleted(records).len() {
            limit as int
        } else {
            not_deleted(records).len() as int
        },
    ).map_values(|record: RecordView| event_of(record)).reverse()
}

/// The replay of the first `count` of `records`, oldest first.
spec fn visible(records: Seq<RecordView>, count: nat) -> Seq<PayloadView>
    decreases count,
{
    if count == 0 {
        Seq::empty()
    } else {
        let oldest = records[count - 1];
        (if oldest.is_deleted {
            Seq::empty()
        } else {
            seq![event_of(oldest)]
        }) + visible(records, (count - 1) as nat)
    }
}

proof fn lemma_visible_is_window(records: Seq<RecordView>, count: nat)
    requires
        count <= records.len(),
    ensures
        visible(records, count) == not_deleted(records.take(count as int)).map_values(
            |record: RecordView| event_of(record),
        ).reverse(),
    decreases count,
{
    let kept = |record: RecordView| !record.is_deleted;
    let event = |record: RecordView| event_of(record);
    if count == 0 {
        assert(records.take(0).filter(kept).len() == 0) by {
            records.take(0).lemma_filter_len(kept);
        }
        assert(visible(records, 0) =~= records.take(0).filter(kept).map_values(event).reverse());
    } else {
        let before = records.take(count - 1);
        let oldest = records[count - 1];
        lemma_visible_is_window(records, (count - 1) as nat);
        assert(records.take(count as int) =~= before.push(oldest));
        before.lemma_filter_push(oldest, kept);
        if oldest.is_deleted {
            assert(visible(records, count) =~= visible(records, (count - 1) as nat));
        } else {
            let rest = before.filter(kept);
            assert(rest.push(oldest).map_values(event) =~= rest.map_values(event).push(
                event_of(oldest),
            ));
            assert(rest.map_values(event).push(event_of(oldest)).reverse() =~= seq![
                event_of(oldest),
            ] + rest.map_values(event).reverse());
        }
    }
}

/// What is kept of the first `count` records is the start of what is kept
/// of all.
proof fn lemma_kept_prefix(records: Seq<RecordView>, count: int)
    requires
        0 <= count <= records.len(),
    ensures
        not_deleted(records.take(count)).len() <= not_deleted(records).len(),
        not_deleted(records.take(count)) == not_deleted(records).take(
            not_deleted(records.take(count)).len() as int,
        ),
{
    let kept = |record: RecordView| !record.is_deleted;
    assert(records =~= records.take(count) + records.skip(count));
    Seq::filter_distributes_over_add(records.take(count), records.skip(count), kept);
    assert(not_deleted(records) == not_deleted(records.take(count)) + not_deleted(
        records.skip(count),
    ));
    assert(not_deleted(records.take(count)) =~= not_deleted(records).take(
        not_deleted(records.take(count)).len() as int,
    ));
}

/// Turns what the store lists for a room, newest first, into the events to
/// replay to a client that joins: of the records that are not deleted the
/// `limit` most recent, in chronological order.
pub fn recent_events(records: &Vec<ChatMessage>, limit: usize) -> (events: Vec<MessagePayload>)
    ensures
        payload_views(events@) == history_window(record_views(records@), limit as nat),
{
    let ghost models = record_views(records@);
    let mut count: usize = 0;
    let mut found: usize = 0;
    assert(not_deleted(models.take(0)).len() == 0) by {
        models.take(0).lemma_filter_len(|record: RecordView| !record.is_deleted);
    }
    while count < records.len() && found < limit
        invariant
            count <= records.len(),
            found <= limit,
            found <= count,
            models == record_views(records@),
            found == not_deleted(models.take(count as int)).len(),
        decreases records.len() - count,
    {
        let record = &records[count];
        assert(models[count as int] == record@);
        assert(models.take(count + 1) =~= models.take(count as int).push(record@));
        proof {
            models.take(count as int).lemma_filter_push(
                record@,
                |record: RecordView| !record.is_deleted,
            );
        }
        if !record.is_deleted {
            found = found + 1;
        }
        count = count + 1;
    }
    proof {
        lemma_kept_prefix(models, count as int);
        if count == records.len() {
            assert(models.take(count as int) =~= models);
        }
        assert(not_deleted(models.take(count as int)).map_values(
            |record: RecordView| event_of(record),
        ).reverse() == history_window(models, limit as nat));
    }
    let mut events: Vec<MessagePayload> = Vec::new();
    let mut left = count;
    assert(payload_views(events@) + visible(models, left as nat) =~= visible(models, count as nat));
    while left > 0
        invariant
            left <= count <= records.len(),
            models == record_views(records@),
            payload_views(events@) + visible(models, left as nat) == visible(models, count as nat),
        decreases left,
    {
        let ghost before = events@;
        left = left - 1;
        let record = &records[left];
        assert(models[left as int] == record@);
        if !record.is_deleted {
            events.push(record_event(record));
            assert(payload_views(events@) =~= payload_views(before) + seq![event_of(record@)]);
        }
        assert(payload_views(events@) + visible(models, left as nat) =~= payload_views(before)
            + visible(models, (left + 1) as nat));
    }
    assert(payload_views(events@) =~= payload_views(events@) + visible(models, 0));
    proof {
        lemma_visible_is_window(models, count as nat);
    }
    events
}

/// The replay never holds more events than the limit, nor more than there
/// are records.
pub proof fn lemma_history_window_bounded(records: Seq<RecordView>, limit: nat)
    ensures
        history_window(records, limit).len() <= limit,
        history_window(records, limit).len() <= records.len(),
{
    records.lemma_filter_len(|record: RecordView| !record.is_deleted);
}

/// The other nodes of the store's cluster that are tried where none are
/// configured.
pub const DEFAULT_NODES: &'static str = "scylla-node-2:9042,scylla-node-3:9042";

/// The nodes that a comma-separated list names: its pieces that are not
/// empty, in order.
pub open spec fn listed_nodes(list: Seq<char>) -> Seq<Seq<char>> {
    fields(list, ',').filter(|node: Seq<char>| node.len() > 0)
}

/// Reads the addresses of the cluster's other nodes from a comma-separated
/// list. Empty entries are passed over.
pub fn cluster_nodes(list: &str) -> (nodes: Vec<String>)
    ensures
        string_views(nodes@) == listed_nodes(list@),
{
    let pieces = split(list, ',');
    let ghost named = |node: Seq<char>| node.len() > 0;
    let ghost all = string_views(pieces@);
    let mut nodes: Vec<String> = Vec::new();
    let mut index: usize = 0;
    assert(all.take(0).filter(named) =~= string_views(nodes@)) by {
        all.take(0).lemma_filter_len(named);
    }
    while index < pieces.len()
        invariant
            index <= pieces.len(),
            all == string_views(pieces@),
            string_views(nodes@) == all.take(index as int).filter(
                |node: Seq<char>| node.len() > 0,
            ),
        decreases pieces.len() - index,
    {
        let ghost named = |node: Seq<char>| node.len() > 0;
        let ghost before = string_views(nodes@);
        let piece = &pieces[index];
        assert(all[index as int] == piece@);
        assert(all.take(index + 1) =~= all.take(index as int).push(piece@));
        proof {
            all.take(index as int).lemma_filter_push(piece@, named);
        }
        if !piece.as_str().is_empty() {
            nodes.push(piece.clone());
            assert(string_views(nodes@) =~= before.push(piece@));
        }
        index += 1;
    }
    assert(all.take(pieces.len() as int) =~= all);
    nodes
}

} // verus!

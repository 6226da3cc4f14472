//! `RawItem`: the domain-free primitive of intake. It records where an item
//! came from (`source`), its structural form (`kind`), what it holds
//! (`body`), what it is linked to (`link`) and its intake status (`status`).
//! A new item is always `raw`.

use vstd::prelude::*;

pub use crate::id::RawItemId;
use crate::id::{pow16, uuid_unix_millis, uuid_variant_digit, uuid_version};
use crate::text::str_eq;
use crate::time::{self, Timestamp};

verus! {

/// Structural form of incoming material; intake knows nothing of its
/// subject matter.
#[derive(Clone, Copy, Debug, PartialEq, Eq, Structural)]
pub enum RawItemKind {
    /// Free text (an idea, a note, a dialogue).
    Text,
    /// A structured document (JSON, TOML, YAML and the like).
    Document,
    /// A reference to an outside resource (URL, file path).
    Reference,
    /// Binary data (image, audio, other).
    Binary,
    /// An event from an outside system (a webhook payload and the like).
    Event,
}

impl RawItemKind {
    /// The wire name of a kind.
    pub open spec fn wire_name(self) -> Seq<char> {
        match self {
            RawItemKind::Text => "text"@,
            RawItemKind::Document => "document"@,
            RawItemKind::Reference => "reference"@,
            RawItemKind::Binary => "binary"@,
            RawItemKind::Event => "event"@,
        }
    }

    /// The kind that a wire name stands for: the kind of that name, and any
    /// other (semantic or free-form) name as text.
    pub open spec fn spec_from_wire(s: Seq<char>) -> RawItemKind {
        if exists|k: RawItemKind| k.wire_name() == s {
            choose|k: RawItemKind| k.wire_name() == s
        } else {
            RawItemKind::Text
        }
    }

    pub fn as_str(self) -> (r: &'static str)
        ensures
            r@ == self.wire_name(),
            self == RawItemKind::Text ==> r@ == "text"@,
            self == RawItemKind::Document ==> r@ == "document"@,
            self == RawItemKind::Reference ==> r@ == "reference"@,
            self == RawItemKind::Binary ==> r@ == "binary"@,
            self == RawItemKind::Event ==> r@ == "event"@,
    {
        match self {
            RawItemKind::Text => "text",
            RawItemKind::Document => "document",
            RawItemKind::Reference => "reference",
            RawItemKind::Binary => "binary",
            RawItemKind::Event => "event",
        }
    }

    /// Reads a kind from its wire name; names that are not media kinds are
    /// treated as text.
    pub fn from_wire(s: &str) -> (r: RawItemKind)
        ensures
            r == Self::spec_from_wire(s@),
            s@ == "document"@ ==> r == RawItemKind::Document,
            s@ == "reference"@ ==> r == RawItemKind::Reference,
            s@ == "binary"@ ==> r == RawItemKind::Binary,
            s@ == "event"@ ==> r == RawItemKind::Event,
            (s@ != "document"@ && s@ != "reference"@ && s@ != "binary"@ && s@ != "event"@) ==> r
                == RawItemKind::Text,
    {
        proof {
            lemma_kind_names_distinct();
            assert(RawItemKind::Document.wire_name() == "document"@);
            assert(RawItemKind::Reference.wire_name() == "reference"@);
            assert(RawItemKind::Binary.wire_name() == "binary"@);
            assert(RawItemKind::Event.wire_name() == "event"@);
        }
        if str_eq(s, "document") {
            proof {
                lemma_kind_wire_roundtrip(RawItemKind::Document);
            }
            RawItemKind::Document
        } else if str_eq(s, "reference") {
            proof {
                lemma_kind_wire_roundtrip(RawItemKind::Reference);
            }
            RawItemKind::Reference
        } else if str_eq(s, "binary") {
            proof {
                lemma_kind_wire_roundtrip(RawItemKind::Binary);
            }
            RawItemKind::Binary
        } else if str_eq(s, "event") {
            proof {
                lemma_kind_wire_roundtrip(RawItemKind::Event);
            }
            RawItemKind::Event
        } else {
            proof {
                lemma_kind_wire_roundtrip(RawItemKind::Text);
            }
            RawItemKind::Text
        }
    }
}

/// Every kind's wire name is read back as that kind.
pub proof fn lemma_kind_wire_roundtrip(k: RawItemKind)
    ensures
        RawItemKind::spec_from_wire(k.wire_name()) == k,
{
    lemma_kind_names_distinct();
    let q = choose|q: RawItemKind| q.wire_name() == k.wire_name();
    assert(q.wire_name() == k.wire_name());
}

/// Distinct kinds have distinct wire names.
proof fn lemma_kind_names_distinct()
    ensures
        forall|a: RawItemKind, b: RawItemKind| a.wire_name() == b.wire_name() ==> a == b,
{
    reveal_strlit("text");
    reveal_strlit("document");
    reveal_strlit("reference");
    reveal_strlit("binary");
    reveal_strlit("event");
    assert("text"@[0] != "document"@[0] && "text"@[0] != "reference"@[0]);
    assert("text"@[0] != "binary"@[0] && "text"@[0] != "event"@[0]);
    assert("document"@[0] != "reference"@[0] && "document"@[0] != "binary"@[0]);
    assert("document"@[0] != "event"@[0] && "reference"@[0] != "binary"@[0]);
    assert("reference"@[0] != "event"@[0] && "binary"@[0] != "event"@[0]);
}

/// Status of a raw item. New items are `Raw`; the other variants are kept
/// so that historical records stay readable.
#[derive(Clone, Copy, Debug, PartialEq, Eq, Structural)]
pub enum RawItemStatus {
    /// Just accepted, not processed yet.
    Raw,
    /// Needs a manual check before routing.
    NeedsReview,
    /// Linked to a goal or context and handed on.
    Linked,
}

impl RawItemStatus {
    /// The wire name of a status.
    pub open spec fn wire_name(self) -> Seq<char> {
        match self {
            RawItemStatus::Raw => "raw"@,
            RawItemStatus::NeedsReview => "needs_review"@,
            RawItemStatus::Linked => "linked"@,
        }
    }

    pub fn as_str(self) -> (r: &'static str)
        ensures
            r@ == self.wire_name(),
            self == RawItemStatus::Raw ==> r@ == "raw"@,
            self == RawItemStatus::NeedsReview ==> r@ == "needs_review"@,
            self == RawItemStatus::Linked ==> r@ == "linked"@,
    {
        match self {
            RawItemStatus::Raw => "raw",
            RawItemStatus::NeedsReview => "needs_review",
            RawItemStatus::Linked => "linked",
        }
    }
}

impl Default for RawItemStatus {
    fn default() -> (r: Self)
        ensures
            r == RawItemStatus::Raw,
    {
        RawItemStatus::Raw
    }
}

/// Distinct statuses have distinct wire names.
pub proof fn lemma_status_wire_names_distinct(a: RawItemStatus, b: RawItemStatus)
    ensures
        a.wire_name() == b.wire_name() ==> a == b,
{
    reveal_strlit("raw");
    reveal_strlit("needs_review");
    reveal_strlit("linked");
    assert("raw"@[0] != "needs_review"@[0] && "raw"@[0] != "linked"@[0]);
    assert("needs_review"@[0] != "linked"@[0]);
}

/// Optional link of a raw item to a goal or context: an opaque URI such as
/// `goal://g_<id>` or `context://project/<slug>`.
#[derive(Clone, Debug, PartialEq, Eq)]
pub struct ItemLink {
    pub target: String,
}

impl ItemLink {
    pub fn new(target: &str) -> (r: ItemLink)
        ensures
            r.target@ == target@,
    {
        ItemLink { target: target.to_owned() }
    }
}

/// A raw item accepted by the intake layer.
#[derive(Clone, Debug, PartialEq, Eq)]
pub struct RawItem {
    pub id: RawItemId,
    /// URI of the source (e.g. `user://alice`, `webhook://gh/push`).
    pub source: String,
    pub kind: RawItemKind,
    /// The content: text, a serialised document, a URL and so on.
    pub body: String,
    pub link: Option<ItemLink>,
    pub status: RawItemStatus,
    pub created_at: Timestamp,
    pub updated_at: Timestamp,
}

/// Input for creating a new [`RawItem`].
pub struct NewRawItem {
    pub id: Option<RawItemId>,
    pub source: String,
    pub kind: RawItemKind,
    pub body: String,
    pub link: Option<ItemLink>,
}

impl NewRawItem {
    pub fn new(source: &str, kind: RawItemKind, body: &str) -> (r: NewRawItem)
        ensures
            r.id is None,
            r.source@ == source@,
            r.kind == kind,
            r.body@ == body@,
            r.link is None,
    {
        NewRawItem {
            id: None,
            source: source.to_owned(),
            kind,
            body: body.to_owned(),
            link: None,
        }
    }

    /// Sets the link to a goal or context.
    pub fn with_link(self, target: &str) -> (r: NewRawItem)
        ensures
            r.link matches Some(l) && l.target@ == target@,
            r.id == self.id,
            r.source == self.source,
            r.kind == self.kind,
            r.body == self.body,
    {
        let mut s = self;
        s.link = Some(ItemLink::new(target));
        s
    }

    /// Builds the [`RawItem`] at time `now`: status `raw`, created and
    /// updated at `now`, with the given id or else a fresh one for `now`.
    pub fn build_at(self, now: Timestamp) -> (r: RawItem)
        ensures
            r.status == RawItemStatus::Raw,
            r.source == self.source,
            r.kind == self.kind,
            r.body == self.body,
            r.link == self.link,
            r.created_at == now,
            r.updated_at == now,
            self.id matches Some(id) ==> r.id == id,
            self.id is None ==> fresh_id_at(r.id, now),
    {
        let id = match self.id {
            Some(id) => id,
            None => RawItemId::new_at(now),
        };
        RawItem {
            id,
            source: self.source,
            kind: self.kind,
            body: self.body,
            link: self.link,
            status: RawItemStatus::Raw,
            created_at: now,
            updated_at: now,
        }
    }

    /// Builds the [`RawItem`] now: status `raw`, created and updated at the
    /// clock's current reading, with the given id or else a fresh one for
    /// that same time.
    pub fn build(self) -> (r: RawItem)
        ensures
            r.status == RawItemStatus::Raw,
            r.source == self.source,
            r.kind == self.kind,
            r.body == self.body,
            r.link == self.link,
            r.created_at == r.updated_at,
            self.id matches Some(id) ==> r.id == id,
            self.id is None ==> fresh_id_at(r.id, r.created_at),
    {
        self.build_at(time::now())
    }
}

/// `id` is a fresh identifier made for time `now`: a version 7 UUID of the
/// RFC 9562 variant whose timestamp field is `now` (modulo 2^48).
pub open spec fn fresh_id_at(id: RawItemId, now: Timestamp) -> bool {
    &&& uuid_version(id.uuid as nat) == 7
    &&& 8 <= uuid_variant_digit(id.uuid as nat) <= 11
    &&& uuid_unix_millis(id.uuid as nat) == (now.unix_millis as nat) % pow16(12)
}

/// Two items built with fresh ids at times that differ modulo 2^48 (about
/// 8900 years) have different ids. Ids made in the same millisecond differ
/// only by their random bits, which nothing here states.
pub proof fn lemma_fresh_ids_differ_across_times(a: RawItem, b: RawItem)
    requires
        fresh_id_at(a.id, a.created_at),
        fresh_id_at(b.id, b.created_at),
        (a.created_at.unix_millis as nat) % pow16(12) != (b.created_at.unix_millis as nat) % pow16(
            12,
        ),
    ensures
        a.id != b.id,
{
}

} // verus!

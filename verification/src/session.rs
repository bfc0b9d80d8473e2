//! The rows of the session table: what a write and a read make of the row
//! that is there, and when a row has expired.

use vstd::prelude::*;

verus! {

/// What the gateway remembers of a session.
#[derive(Debug, PartialEq, Eq)]
pub struct StreamableSession {
    pub ids_id: String,
}

/// A row of the session table. Moments and the time to live are counted in
/// the same unit by the host's clock.
#[derive(Debug, PartialEq, Eq)]
pub struct InnerSession {
    pub session: StreamableSession,
    pub created_at: u64,
    pub last_active: u64,
}

/// What an [`InnerSession`] stands for.
pub struct SessionRow {
    pub ids_id: Seq<char>,
    pub created_at: u64,
    pub last_active: u64,
}

impl View for InnerSession {
    type V = SessionRow;

    open spec fn view(&self) -> SessionRow {
        SessionRow {
            ids_id: self.session.ids_id@,
            created_at: self.created_at,
            last_active: self.last_active,
        }
    }
}

/// What an optional row stands for.
pub open spec fn opt_row(row: Option<InnerSession>) -> Option<SessionRow> {
    match row {
        Some(r) => Some(r@),
        None => None,
    }
}

/// What an optional borrowed row stands for.
pub open spec fn opt_row_ref(row: Option<&InnerSession>) -> Option<SessionRow> {
    match row {
        Some(r) => Some(r@),
        None => None,
    }
}

impl SessionRow {
    /// A row is live at the moment `now` as long as less than the time to
    /// live has passed since it was last active.
    pub open spec fn live(self, now: u64, ttl: u64) -> bool {
        now < self.last_active + ttl
    }
}

/// The row that is there at the moment `now`: the stored row where it is
/// live, and none where it has expired or there was none.
pub open spec fn present(existing: Option<SessionRow>, now: u64, ttl: u64) -> Option<SessionRow> {
    match existing {
        Some(row) => if row.live(now, ttl) {
            Some(row)
        } else {
            None
        },
        None => None,
    }
}

/// The row that a write at the moment `now` leaves: it holds the session,
/// was last active now, and was created when the row that was there was
/// created, or now where there was none.
pub open spec fn written(existing: Option<SessionRow>, ids_id: Seq<char>, now: u64, ttl: u64)
    -> SessionRow {
    SessionRow {
        ids_id,
        created_at: match present(existing, now, ttl) {
            Some(row) => row.created_at,
            None => now,
        },
        last_active: now,
    }
}

/// The row that a read at the moment `now` leaves and hands out: the row
/// that is there, last active now; none where none is there.
pub open spec fn read(existing: Option<SessionRow>, now: u64, ttl: u64) -> Option<SessionRow> {
    match present(existing, now, ttl) {
        Some(row) => Some(SessionRow { last_active: now, ..row }),
        None => None,
    }
}

impl Clone for StreamableSession {
    fn clone(&self) -> (r: StreamableSession)
        ensures
            r.ids_id@ == self.ids_id@,
    {
        StreamableSession { ids_id: self.ids_id.clone() }
    }
}

impl Clone for InnerSession {
    fn clone(&self) -> (r: InnerSession)
        ensures
            r@ == self@,
    {
        InnerSession {
            session: self.session.clone(),
            created_at: self.created_at,
            last_active: self.last_active,
        }
    }
}

impl InnerSession {
    /// Whether the row is live at the moment `now`.
    pub fn is_live(&self, now: u64, ttl: u64) -> (r: bool)
        ensures
            r == self@.live(now, ttl),
    {
        now < self.last_active || now - self.last_active < ttl
    }

    /// The row that a write at the moment `now` leaves.
    pub fn put(existing: Option<&InnerSession>, session: &StreamableSession, now: u64, ttl: u64)
        -> (r: InnerSession)
        ensures
            r@ == written(opt_row_ref(existing), session.ids_id@, now, ttl),
    {
        let created_at = match existing {
            Some(e) => if e.is_live(now, ttl) {
                e.created_at
            } else {
                now
            },
            None => now,
        };
        InnerSession { session: session.clone(), created_at, last_active: now }
    }

    /// The row that a read at the moment `now` leaves and hands out.
    pub fn get_inner(existing: Option<&InnerSession>, now: u64, ttl: u64) -> (r: Option<
        InnerSession,
    >)
        ensures
            opt_row(r) == read(opt_row_ref(existing), now, ttl),
    {
        match existing {
            Some(e) => if e.is_live(now, ttl) {
                Some(
                    InnerSession {
                        session: e.session.clone(),
                        created_at: e.created_at,
                        last_active: now,
                    },
                )
            } else {
                None
            },
            None => None,
        }
    }

    /// The session that a read at the moment `now` hands out.
    pub fn get(existing: Option<&InnerSession>, now: u64, ttl: u64) -> (r: Option<
        StreamableSession,
    >)
        ensures
            r is Some <==> read(opt_row_ref(existing), now, ttl) is Some,
            r matches Some(s) ==> s.ids_id@ == read(opt_row_ref(existing), now, ttl)->0.ids_id,
    {
        match InnerSession::get_inner(existing, now, ttl) {
            Some(row) => Some(row.session),
            None => None,
        }
    }
}

/// A row that was written or read at one moment and not touched for the
/// time to live is not there at any later read; up to then it is.
pub proof fn lemma_untouched_session_expires(
    existing: Option<SessionRow>,
    ids_id: Seq<char>,
    touched_at: u64,
    now: u64,
    ttl: u64,
)
    ensures
        now >= touched_at + ttl ==> read(
            Some(written(existing, ids_id, touched_at, ttl)),
            now,
            ttl,
        ) is None,
        now < touched_at + ttl ==> read(Some(written(existing, ids_id, touched_at, ttl)), now, ttl)
            is Some,
        read(existing, touched_at, ttl) matches Some(row) ==> (now >= touched_at + ttl ==> read(
            Some(row),
            now,
            ttl,
        ) is None),
{
}

/// A write over a live row keeps the moment at which the row was created.
pub proof fn lemma_write_keeps_creation(row: SessionRow, ids_id: Seq<char>, now: u64, ttl: u64)
    requires
        row.live(now, ttl),
    ensures
        written(Some(row), ids_id, now, ttl).created_at == row.created_at,
        written(Some(row), ids_id, now, ttl).last_active == now,
{
}

} // verus!

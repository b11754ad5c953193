//! What holds of every run of a handle.
use vstd::prelude::*;

use crate::archive::{
    close_step, entry_of, header_outcome, header_state, next_step, open_succeeds, opened, read_step,
    ArchiveModel, EntryHeader, EntryModel, Lifecycle, NextStep, ReadStep,
};
use crate::error::{Error, ARCHIVE_EOF, ARCHIVE_OK, ERRNO_NOT_FOUND};

verus! {

/// The entries yielded when the enumeration is advanced once per header and
/// the engine reads each header without error; with the handle after that.
pub open spec fn enumerated(a: ArchiveModel, headers: Seq<EntryHeader>, message: String) -> (
    ArchiveModel,
    Seq<EntryModel>,
)
    decreases headers.len(),
{
    if headers.len() == 0 {
        (a, seq![])
    } else {
        let b = next_step(a).0;
        let c = header_state(b, ARCHIVE_OK);
        let rest = enumerated(c, headers.drop_first(), message);
        match header_outcome(b, ARCHIVE_OK, message, headers[0]) {
            Ok(Some(e)) => (rest.0, seq![e] + rest.1),
            _ => rest,
        }
    }
}

/// Advancing an open handle once per header of the archive yields every
/// entry exactly once, in the archive's order; advancing once more, when the
/// engine reports the end (whatever header it leaves, `trailer`), yields
/// nothing, and every later advance makes no native call.
pub proof fn lemma_enumeration_in_order(
    a: ArchiveModel,
    headers: Seq<EntryHeader>,
    trailer: EntryHeader,
    message: String,
)
    requires
        a.wf(),
        a.state is Open,
        !a.at_end,
    ensures
        ({
            let (b, entries) = enumerated(a, headers, message);
            &&& entries.len() == headers.len()
            &&& forall|i: int|
                0 <= i < headers.len() ==> entries[i] == entry_of(
                    headers[i],
                    (a.cursor + i + 1) as nat,
                )
            &&& b == (ArchiveModel { cursor: a.cursor + headers.len(), ..a })
            &&& next_step(b).1 == Ok::<NextStep, Error>(NextStep::ReadHeader)
            &&& header_outcome(next_step(b).0, ARCHIVE_EOF, message, trailer)
                == Ok::<Option<EntryModel>, Error>(None)
            &&& next_step(header_state(next_step(b).0, ARCHIVE_EOF)).1
                == Ok::<NextStep, Error>(NextStep::Finished)
        }),
    decreases headers.len(),
{
    if headers.len() > 0 {
        let b = next_step(a).0;
        let c = header_state(b, ARCHIVE_OK);
        lemma_enumeration_in_order(c, headers.drop_first(), trailer, message);
        let (_, rest) = enumerated(c, headers.drop_first(), message);
        let (_, entries) = enumerated(a, headers, message);
        assert forall|i: int| 0 <= i < headers.len() implies entries[i] == entry_of(
            headers[i],
            (a.cursor + i + 1) as nat,
        ) by {
            if i > 0 {
                assert(entries[i] == rest[i - 1]);
                assert(headers.drop_first()[i - 1] == headers[i]);
            }
        }
    }
}

/// Opening a file that does not exist fails with `NotFound`, whatever the
/// failing status, and yields no handle: the native resource held while
/// configuring is released at once by the caller.
pub proof fn lemma_missing_file(a: ArchiveModel, status: i32, message: String)
    requires
        a.state is Configuring,
        a.held,
        !open_succeeds(status),
    ensures
        opened(a, status, ERRNO_NOT_FOUND, message) == Err::<ArchiveModel, Error>(
            Error::NotFound { code: status, message },
        ),
{
}

/// Closing twice releases the native resource at most once: the second close
/// releases nothing and changes nothing, also when a fatal error closed the
/// handle before.
pub proof fn lemma_close_idempotent(a: ArchiveModel)
    ensures
        close_step(a).1 == a.held,
        !close_step(close_step(a).0).1,
        close_step(close_step(a).0).0 == close_step(a).0,
{
}

/// Once a handle is closed, asking for an entry or reading one fails with
/// `HandleClosed`, and neither asks for a native call.
pub proof fn lemma_closed_refuses(a: ArchiveModel, e: EntryModel)
    ensures
        ({
            let b = close_step(a).0;
            &&& b.state == Lifecycle::Closed
            &&& next_step(b) == (b, Err::<NextStep, Error>(Error::HandleClosed))
            &&& read_step(b, e) == Err::<ReadStep, Error>(Error::HandleClosed)
        }),
{
}

/// An entry read after the enumeration was advanced again is stale.
pub proof fn lemma_stale_after_next(a: ArchiveModel, e: EntryModel)
    requires
        a.wf(),
        a.state is Open,
        e.stamp <= a.cursor,
    ensures
        read_step(next_step(a).0, e) == Err::<ReadStep, Error>(Error::StaleEntry),
{
}

} // verus!

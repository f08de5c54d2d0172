//! Failures as this layer sees them, and the rules that collapse them into
//! a status code and a message.

use vstd::prelude::*;
use vstd::utf8::encode_utf8;

use crate::api::message::carried;
use crate::api::message::contains_nul;
use crate::api::message::is_carried;
use crate::api::message::lemma_carried;
use crate::api::message::nul_free;
use crate::api::message::nul_terminated;
use crate::api::message::OwnedMessage;
use crate::api::status::FFIResponseStatus;

verus! {

/// What can go wrong inside the sector builder.
#[derive(Clone, Copy, Debug, PartialEq, Eq, Structural)]
pub enum SectorBuilderErr {
    /// A piece is larger than what a sector can still take.
    OverflowError,
    /// Fewer bytes reached storage than the piece holds.
    IncompleteWriteError,
    /// The builder found its own bookkeeping inconsistent.
    InvalidInternalStateError,
}

/// What the sector manager reports, tagged by the side it holds responsible.
#[derive(Clone, Copy, Debug, PartialEq, Eq, Structural)]
pub enum SectorManagerErr {
    /// Attributed to neither side.
    UnclassifiedError,
    /// Attributed to the caller.
    CallerError,
    /// Attributed to the service.
    ReceiverError,
}

/// A failed operation as it reaches the boundary: what it is in each of the
/// two domains that the classification knows, and how it reads.
///
/// A failure from any other domain is in neither, and that is all the
/// classification needs to know of it.
#[derive(Debug, PartialEq, Eq)]
pub struct Failure {
    /// The failure as one of the sector builder's, if it is one.
    pub sector_builder: Option<SectorBuilderErr>,
    /// The failure as one of the sector manager's, if it is one.
    pub sector_manager: Option<SectorManagerErr>,
    /// The human-readable rendering of the failure.
    pub rendering: String,
}

/// The status of a sector-builder failure: exceeding a sector's capacity is
/// the caller's doing, everything else the service's.
pub open spec fn sector_builder_status(err: SectorBuilderErr) -> FFIResponseStatus {
    if err == SectorBuilderErr::OverflowError {
        FFIResponseStatus::CallerError
    } else {
        FFIResponseStatus::ReceiverError
    }
}

/// The status of a sector-manager failure: the one its tag names.
pub open spec fn sector_manager_status(err: SectorManagerErr) -> FFIResponseStatus {
    match err {
        SectorManagerErr::UnclassifiedError => FFIResponseStatus::UnclassifiedError,
        SectorManagerErr::CallerError => FFIResponseStatus::CallerError,
        SectorManagerErr::ReceiverError => FFIResponseStatus::ReceiverError,
    }
}

/// The status of a failure. The domains are asked in a fixed order and the
/// first that knows the failure decides: the sector builder, then the sector
/// manager. A failure that neither knows is unclassified.
pub open spec fn status_of(err: Failure) -> FFIResponseStatus {
    match (err.sector_builder, err.sector_manager) {
        (Some(e), _) => sector_builder_status(e),
        (None, Some(e)) => sector_manager_status(e),
        (None, None) => FFIResponseStatus::UnclassifiedError,
    }
}

impl Failure {
    /// The bytes of the rendering.
    pub open spec fn text(&self) -> Seq<u8> {
        encode_utf8(self.rendering@)
    }

    /// The text of the message that reports the failure: the rendering, or
    /// what of it comes before its first zero byte.
    pub open spec fn message_text(&self) -> Seq<u8> {
        carried(self.text())
    }

    /// The rendering is free of zero bytes.
    pub open spec fn spec_is_expressible(&self) -> bool {
        nul_free(self.text())
    }

    /// Whether a message can carry the whole rendering, that is, whether
    /// the rendering is free of zero bytes.
    #[verifier::when_used_as_spec(spec_is_expressible)]
    pub fn is_expressible(&self) -> (ok: bool)
        ensures
            ok == self.spec_is_expressible(),
    {
        !contains_nul(self.rendering.as_str().as_bytes())
    }

    /// Classifies the failure.
    pub fn status(&self) -> (status: FFIResponseStatus)
        ensures
            status == status_of(*self),
            status != FFIResponseStatus::NoError,
    {
        match self.sector_builder {
            Some(SectorBuilderErr::OverflowError) => {
                return FFIResponseStatus::CallerError;
            },
            Some(SectorBuilderErr::IncompleteWriteError) => {
                return FFIResponseStatus::ReceiverError;
            },
            Some(SectorBuilderErr::InvalidInternalStateError) => {
                return FFIResponseStatus::ReceiverError;
            },
            None => {},
        }
        match self.sector_manager {
            Some(SectorManagerErr::UnclassifiedError) => {
                return FFIResponseStatus::UnclassifiedError;
            },
            Some(SectorManagerErr::CallerError) => {
                return FFIResponseStatus::CallerError;
            },
            Some(SectorManagerErr::ReceiverError) => {
                return FFIResponseStatus::ReceiverError;
            },
            None => {},
        }
        FFIResponseStatus::UnclassifiedError
    }
}

/// Turns a failure into what an envelope stores: the status that the rules
/// give it, and a message of its own that holds the rendering.
///
/// Every failure gets both. A rendering that holds a zero byte, which no
/// terminated string can carry whole, is reported up to that byte.
pub fn err_code_and_msg(err: &Failure) -> (r: (FFIResponseStatus, OwnedMessage))
    ensures
        r.0 == status_of(*err),
        r.0 != FFIResponseStatus::NoError,
        r.1@ == err.message_text(),
        err.is_expressible() ==> r.1@ == err.text(),
        nul_terminated(r.1.bytes_with_nul()),
{
    let msg = OwnedMessage::carrying(err.rendering.as_str().as_bytes());
    proof {
        lemma_carried(err.text());
        assert(msg.bytes_with_nul().drop_last() =~= msg@);
    }
    (err.status(), msg)
}

/// A failure never classifies as success.
pub proof fn lemma_failure_is_never_success(err: Failure)
    ensures
        status_of(err) != FFIResponseStatus::NoError,
{
}

/// Classifying a failure again gives the same answer: two failures that are
/// the same in both domains and read the same get the same status and the
/// same message text.
pub proof fn lemma_classification_repeats(a: Failure, b: Failure)
    requires
        a.sector_builder == b.sector_builder,
        a.sector_manager == b.sector_manager,
        a.rendering@ == b.rendering@,
    ensures
        status_of(a) == status_of(b),
        a.message_text() == b.message_text(),
{
}

/// The message of a failure is a faithful part of its rendering: it is the
/// rendering up to its first zero byte, hence all of it where it has none,
/// and it can stand in a terminated string.
pub proof fn lemma_message_reads_as_rendering(err: Failure)
    ensures
        is_carried(err.text(), err.message_text()),
        err.is_expressible() <==> err.message_text() == err.text(),
        nul_terminated(err.message_text().push(0u8)),
{
    lemma_carried(err.text());
    assert(err.message_text().push(0u8).drop_last() =~= err.message_text());
}

/// A failure that neither domain knows is unclassified.
pub proof fn lemma_unknown_domain_is_unclassified(err: Failure)
    requires
        err.sector_builder is None,
        err.sector_manager is None,
    ensures
        status_of(err) == FFIResponseStatus::UnclassifiedError,
{
}

/// A failure that the sector builder knows is classified by the sector
/// builder's rule, whatever the sector manager makes of it.
pub proof fn lemma_sector_builder_decides_first(err: Failure)
    requires
        err.sector_builder is Some,
    ensures
        status_of(err) == sector_builder_status(err.sector_builder->0),
{
}

} // verus!

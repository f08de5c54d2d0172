//! The response envelopes, one per operation.
//!
//! An envelope records how an operation ended: a status, the message of the
//! failure if there was one, and the operation's payload. It is written once,
//! when it is made, and given up once, to the function that destroys it.
//! Whoever holds an envelope reads the status first: the payload means
//! something only beside `NoError`, and holds zeroes otherwise.

use vstd::prelude::*;

use crate::api::all_zero;
use crate::api::errors::err_code_and_msg;
use crate::api::errors::status_of;
use crate::api::errors::Failure;
use crate::api::message::nul_terminated;
use crate::api::message::OwnedMessage;
use crate::api::ownership::allocations_of;
use crate::api::ownership::array_allocation;
use crate::api::ownership::release;
use crate::api::ownership::Allocation;
use crate::api::sector_builder::SectorBuilderHandle;
use crate::api::status::FFIResponseStatus;
use crate::api::API_POREP_PROOF_BYTES;
use crate::api::API_POST_PROOF_BYTES;

verus! {

/// The status and message of an envelope agree: there is a message exactly
/// when the status reports a failure.
pub open spec fn outcome_wf(status_code: FFIResponseStatus, error_msg: Option<OwnedMessage>) -> bool {
    error_msg is Some <==> status_code != FFIResponseStatus::NoError
}

/// The status and message of an envelope are those of a success: `NoError`
/// and no message.
pub open spec fn reports_success(
    status_code: FFIResponseStatus,
    error_msg: Option<OwnedMessage>,
) -> bool {
    &&& status_code == FFIResponseStatus::NoError
    &&& error_msg is None
}

/// The status and message of an envelope are those of the failure `err`: the
/// status that the classification rules give it, and a terminated message
/// that holds its rendering, whole where the rendering is free of zero bytes
/// and up to the first of them otherwise.
pub open spec fn reports_failure(
    status_code: FFIResponseStatus,
    error_msg: Option<OwnedMessage>,
    err: Failure,
) -> bool {
    &&& status_code == status_of(err)
    &&& status_code != FFIResponseStatus::NoError
    &&& error_msg matches Some(m) && {
        &&& m@ == err.message_text()
        &&& err.is_expressible() ==> m@ == err.text()
        &&& nul_terminated(m.bytes_with_nul())
    }
}

/// What destroying an envelope gives back follows from how it was made. A
/// success gives back itself alone, after its fault array if it has one with
/// elements. A failure, which has no fault array, gives back its message, as
/// long as what it holds of the rendering and its terminator, and then itself.
pub proof fn lemma_destruction_follows_construction(
    status_code: FFIResponseStatus,
    error_msg: Option<OwnedMessage>,
    faults_len: usize,
    err: Failure,
)
    ensures
        reports_success(status_code, error_msg) ==> allocations_of(faults_len, error_msg)
            == array_allocation(faults_len).push(Allocation::Envelope),
        reports_failure(status_code, error_msg, err) ==> allocations_of(0, error_msg) == seq![
            Allocation::Message { len: (err.message_text().len() + 1) as usize },
            Allocation::Envelope,
        ],
{
}

// ---------------------------------------------------------------------------
// Seal
// ---------------------------------------------------------------------------

/// What sealing a sector yields.
#[derive(Clone, Copy, Debug, PartialEq, Eq)]
pub struct SealOutput {
    /// The commitment to the sector's data.
    pub comm_d: [u8; 32],
    /// The commitment to the replica.
    pub comm_r: [u8; 32],
    /// The commitment to the replica's layers.
    pub comm_r_star: [u8; 32],
    /// The proof of replication.
    pub proof: [u8; API_POREP_PROOF_BYTES],
}

/// The outcome of sealing a sector.
#[derive(Debug, PartialEq, Eq)]
pub struct SealResponse {
    pub status_code: FFIResponseStatus,
    pub error_msg: Option<OwnedMessage>,
    pub comm_d: [u8; 32],
    pub comm_r: [u8; 32],
    pub comm_r_star: [u8; 32],
    pub proof: [u8; API_POREP_PROOF_BYTES],
}

impl SealResponse {
    /// Every payload field holds its zero value.
    pub open spec fn payload_is_zero(&self) -> bool {
        &&& all_zero(self.comm_d@)
        &&& all_zero(self.comm_r@)
        &&& all_zero(self.comm_r_star@)
        &&& all_zero(self.proof@)
    }

    /// The payload is that of `output`, byte for byte.
    pub open spec fn carries(&self, output: SealOutput) -> bool {
        &&& self.comm_d == output.comm_d
        &&& self.comm_r == output.comm_r
        &&& self.comm_r_star == output.comm_r_star
        &&& self.proof == output.proof
    }

    /// The envelope is one that a constructor can have made.
    pub open spec fn wf(&self) -> bool {
        &&& outcome_wf(self.status_code, self.error_msg)
        &&& self.status_code != FFIResponseStatus::NoError ==> self.payload_is_zero()
    }

    /// What the envelope owns: the message if there is one, and itself.
    pub open spec fn allocations(&self) -> Seq<Allocation> {
        allocations_of(0, self.error_msg)
    }

    /// Records how sealing ended: the output of a success, or the status and
    /// message of a failure beside a zero payload.
    pub fn from_result(result: Result<SealOutput, Failure>) -> (r: SealResponse)
        ensures
            r.wf(),
            match result {
                Ok(output) => reports_success(r.status_code, r.error_msg) && r.carries(output),
                Err(err) => reports_failure(r.status_code, r.error_msg, err) && r.payload_is_zero(),
            },
    {
        let mut response = SealResponse::default();
        match result {
            Ok(output) => {
                response.comm_d = output.comm_d;
                response.comm_r = output.comm_r;
                response.comm_r_star = output.comm_r_star;
                response.proof = output.proof;
            },
            Err(err) => {
                let (code, msg) = err_code_and_msg(&err);
                response.status_code = code;
                response.error_msg = Some(msg);
            },
        }
        response
    }
}

impl Default for SealResponse {
    /// The envelope before anything is recorded in it: a success with a zero
    /// payload.
    fn default() -> (r: SealResponse)
        ensures
            reports_success(r.status_code, r.error_msg),
            r.payload_is_zero(),
            r.wf(),
    {
        SealResponse {
            status_code: FFIResponseStatus::NoError,
            error_msg: None,
            comm_d: [0; 32],
            comm_r: [0; 32],
            comm_r_star: [0; 32],
            proof: [0; API_POREP_PROOF_BYTES],
        }
    }
}

/// Destroys the envelope together with its message, and lists what was given
/// back.
pub fn destroy_seal_response(ptr: Box<SealResponse>) -> (released: Vec<Allocation>)
    ensures
        released@ == ptr.allocations(),
{
    release(0, &ptr.error_msg)
}

// ---------------------------------------------------------------------------
// Verify seal
// ---------------------------------------------------------------------------

/// The outcome of checking a seal.
#[derive(Debug, PartialEq, Eq)]
pub struct VerifySealResponse {
    pub status_code: FFIResponseStatus,
    pub error_msg: Option<OwnedMessage>,
    /// Whether the seal holds.
    pub is_valid: bool,
}

impl VerifySealResponse {
    /// Every payload field holds its zero value.
    pub open spec fn payload_is_zero(&self) -> bool {
        !self.is_valid
    }

    /// The payload is that of `output`.
    pub open spec fn carries(&self, output: bool) -> bool {
        self.is_valid == output
    }

    /// The envelope is one that a constructor can have made.
    pub open spec fn wf(&self) -> bool {
        &&& outcome_wf(self.status_code, self.error_msg)
        &&& self.status_code != FFIResponseStatus::NoError ==> self.payload_is_zero()
    }

    /// What the envelope owns: the message if there is one, and itself.
    pub open spec fn allocations(&self) -> Seq<Allocation> {
        allocations_of(0, self.error_msg)
    }

    /// Records how the check ended: the verdict of a success, or the status
    /// and message of a failure beside `false`.
    pub fn from_result(result: Result<bool, Failure>) -> (r: VerifySealResponse)
        ensures
            r.wf(),
            match result {
                Ok(output) => reports_success(r.status_code, r.error_msg) && r.carries(output),
                Err(err) => reports_failure(r.status_code, r.error_msg, err) && r.payload_is_zero(),
            },
    {
        let mut response = VerifySealResponse::default();
        match result {
            Ok(output) => {
                response.is_valid = output;
            },
            Err(err) => {
                let (code, msg) = err_code_and_msg(&err);
                response.status_code = code;
                response.error_msg = Some(msg);
            },
        }
        response
    }
}

impl Default for VerifySealResponse {
    /// The envelope before anything is recorded in it: a success with a zero
    /// payload.
    fn default() -> (r: VerifySealResponse)
        ensures
            reports_success(r.status_code, r.error_msg),
            r.payload_is_zero(),
            r.wf(),
    {
        VerifySealResponse {
            status_code: FFIResponseStatus::NoError,
            error_msg: None,
            is_valid: false,
        }
    }
}

/// Destroys the envelope together with its message, and lists what was given
/// back.
pub fn destroy_verify_seal_response(ptr: Box<VerifySealResponse>) -> (released: Vec<Allocation>)
    ensures
        released@ == ptr.allocations(),
{
    release(0, &ptr.error_msg)
}

// ---------------------------------------------------------------------------
// Get unsealed range
// ---------------------------------------------------------------------------

/// The outcome of reading a range of unsealed bytes.
#[derive(Debug, PartialEq, Eq)]
pub struct GetUnsealedRangeResponse {
    pub status_code: FFIResponseStatus,
    pub error_msg: Option<OwnedMessage>,
    /// How many bytes were written out.
    pub num_bytes_written: u64,
}

impl GetUnsealedRangeResponse {
    /// Every payload field holds its zero value.
    pub open spec fn payload_is_zero(&self) -> bool {
        self.num_bytes_written == 0
    }

    /// The payload is that of `output`.
    pub open spec fn carries(&self, output: u64) -> bool {
        self.num_bytes_written == output
    }

    /// The envelope is one that a constructor can have made.
    pub open spec fn wf(&self) -> bool {
        &&& outcome_wf(self.status_code, self.error_msg)
        &&& self.status_code != FFIResponseStatus::NoError ==> self.payload_is_zero()
    }

    /// What the envelope owns: the message if there is one, and itself.
    pub open spec fn allocations(&self) -> Seq<Allocation> {
        allocations_of(0, self.error_msg)
    }

    /// Records how the read ended: the count of a success, or the status and
    /// message of a failure beside a count of zero.
    pub fn from_result(result: Result<u64, Failure>) -> (r: GetUnsealedRangeResponse)
        ensures
            r.wf(),
            match result {
                Ok(output) => reports_success(r.status_code, r.error_msg) && r.carries(output),
                Err(err) => reports_failure(r.status_code, r.error_msg, err) && r.payload_is_zero(),
            },
    {
        let mut response = GetUnsealedRangeResponse::default();
        match result {
            Ok(output) => {
                response.num_bytes_written = output;
            },
            Err(err) => {
                let (code, msg) = err_code_and_msg(&err);
                response.status_code = code;
                response.error_msg = Some(msg);
            },
        }
        response
    }
}

impl Default for GetUnsealedRangeResponse {
    /// The envelope before anything is recorded in it: a success with a zero
    /// payload.
    fn default() -> (r: GetUnsealedRangeResponse)
        ensures
            reports_success(r.status_code, r.error_msg),
            r.payload_is_zero(),
            r.wf(),
    {
        GetUnsealedRangeResponse {
            status_code: FFIResponseStatus::NoError,
            error_msg: None,
            num_bytes_written: 0,
        }
    }
}

/// Destroys the envelope together with its message, and lists what was given
/// back.
pub fn destroy_get_unsealed_range_response(ptr: Box<GetUnsealedRangeResponse>) -> (released: Vec<Allocation>)
    ensures
        released@ == ptr.allocations(),
{
    release(0, &ptr.error_msg)
}

// ---------------------------------------------------------------------------
// Get unsealed
// ---------------------------------------------------------------------------

/// The outcome of reading a whole unsealed sector.
#[derive(Debug, PartialEq, Eq)]
pub struct GetUnsealedResponse {
    pub status_code: FFIResponseStatus,
    pub error_msg: Option<OwnedMessage>,
}

impl GetUnsealedResponse {
    /// The envelope is one that a constructor can have made.
    pub open spec fn wf(&self) -> bool {
        &&& outcome_wf(self.status_code, self.error_msg)
    }

    /// What the envelope owns: the message if there is one, and itself.
    pub open spec fn allocations(&self) -> Seq<Allocation> {
        allocations_of(0, self.error_msg)
    }

    /// Records how the read ended: a success, or the status and message of a
    /// failure.
    pub fn from_result(result: Result<(), Failure>) -> (r: GetUnsealedResponse)
        ensures
            r.wf(),
            match result {
                Ok(_) => reports_success(r.status_code, r.error_msg),
                Err(err) => reports_failure(r.status_code, r.error_msg, err),
            },
    {
        let mut response = GetUnsealedResponse::default();
        match result {
            Ok(_) => {},
            Err(err) => {
                let (code, msg) = err_code_and_msg(&err);
                response.status_code = code;
                response.error_msg = Some(msg);
            },
        }
        response
    }
}

impl Default for GetUnsealedResponse {
    /// The envelope before anything is recorded in it: a success.
    fn default() -> (r: GetUnsealedResponse)
        ensures
            reports_success(r.status_code, r.error_msg),
            r.wf(),
    {
        GetUnsealedResponse {
            status_code: FFIResponseStatus::NoError,
            error_msg: None,
        }
    }
}

/// Destroys the envelope together with its message, and lists what was given
/// back.
pub fn destroy_get_unsealed_response(ptr: Box<GetUnsealedResponse>) -> (released: Vec<Allocation>)
    ensures
        released@ == ptr.allocations(),
{
    release(0, &ptr.error_msg)
}

// ---------------------------------------------------------------------------
// Generate proof of spacetime
// ---------------------------------------------------------------------------

/// What generating a proof of spacetime yields.
#[derive(Debug, PartialEq, Eq)]
pub struct GeneratePoSTOutput {
    /// The identifiers of the sectors found faulty.
    pub faults: Vec<u64>,
    /// The proof of spacetime.
    pub proof: [u8; API_POST_PROOF_BYTES],
}

/// The outcome of generating a proof of spacetime.
#[derive(Debug, PartialEq, Eq)]
pub struct GeneratePoSTResponse {
    pub status_code: FFIResponseStatus,
    pub error_msg: Option<OwnedMessage>,
    /// How many sector identifiers the fault array holds.
    pub faults_len: usize,
    /// The fault array, which the envelope owns.
    pub faults_ptr: Vec<u64>,
    pub proof: [u8; API_POST_PROOF_BYTES],
}

impl GeneratePoSTResponse {
    /// Every payload field holds its zero value: no faults, in an array
    /// without a buffer, and a zero proof.
    pub open spec fn payload_is_zero(&self) -> bool {
        &&& self.faults_len == 0
        &&& self.faults_ptr@.len() == 0
        &&& all_zero(self.proof@)
    }

    /// The payload is that of `output`: the same faults in the same order,
    /// and the same proof byte for byte.
    pub open spec fn carries(&self, output: GeneratePoSTOutput) -> bool {
        &&& self.faults_len == output.faults@.len()
        &&& self.faults_ptr@ == output.faults@
        &&& self.proof == output.proof
    }

    /// The recorded length is that of the fault array, so that the region
    /// given back on destruction is the region that was taken.
    pub open spec fn length_is_true(&self) -> bool {
        self.faults_len == self.faults_ptr@.len()
    }

    /// The envelope is one that a constructor can have made.
    pub open spec fn wf(&self) -> bool {
        &&& outcome_wf(self.status_code, self.error_msg)
        &&& self.status_code != FFIResponseStatus::NoError ==> self.payload_is_zero()
        &&& self.length_is_true()
    }

    /// What the envelope owns: the fault array if it has elements, the
    /// message if there is one, and itself.
    pub open spec fn allocations(&self) -> Seq<Allocation> {
        allocations_of(self.faults_ptr.len(), self.error_msg)
    }

    /// Records how the generation ended: the output of a success, whose fault
    /// array the envelope takes over, or the status and message of a failure
    /// beside a zero payload.
    pub fn from_result(result: Result<GeneratePoSTOutput, Failure>) -> (r: GeneratePoSTResponse)
        ensures
            r.wf(),
            match result {
                Ok(output) => reports_success(r.status_code, r.error_msg) && r.carries(output),
                Err(err) => reports_failure(r.status_code, r.error_msg, err) && r.payload_is_zero(),
            },
    {
        let mut response = GeneratePoSTResponse::default();
        match result {
            Ok(output) => {
                response.faults_len = output.faults.len();
                response.faults_ptr = output.faults;
                response.proof = output.proof;
            },
            Err(err) => {
                let (code, msg) = err_code_and_msg(&err);
                response.status_code = code;
                response.error_msg = Some(msg);
            },
        }
        response
    }
}

impl Default for GeneratePoSTResponse {
    /// The envelope before anything is recorded in it: a success with a zero
    /// payload.
    fn default() -> (r: GeneratePoSTResponse)
        ensures
            reports_success(r.status_code, r.error_msg),
            r.payload_is_zero(),
            r.wf(),
    {
        GeneratePoSTResponse {
            status_code: FFIResponseStatus::NoError,
            error_msg: None,
            faults_len: 0,
            faults_ptr: Vec::new(),
            proof: [0; API_POST_PROOF_BYTES],
        }
    }
}

/// Destroys the envelope together with its fault array and its message, and
/// lists what was given back. The array's region is rebuilt from the recorded
/// length, counted in sector identifiers, so the recorded length has to be
/// true, as it is in every envelope that a constructor made.
pub fn destroy_generate_post_response(ptr: Box<GeneratePoSTResponse>) -> (released: Vec<Allocation>)
    requires
        ptr.length_is_true(),
    ensures
        released@ == ptr.allocations(),
{
    release(ptr.faults_len, &ptr.error_msg)
}

// ---------------------------------------------------------------------------
// Verify proof of spacetime
// ---------------------------------------------------------------------------

/// The outcome of checking a proof of spacetime.
#[derive(Debug, PartialEq, Eq)]
pub struct VerifyPoSTResponse {
    pub status_code: FFIResponseStatus,
    pub error_msg: Option<OwnedMessage>,
    /// Whether the proof holds.
    pub is_valid: bool,
}

impl VerifyPoSTResponse {
    /// Every payload field holds its zero value.
    pub open spec fn payload_is_zero(&self) -> bool {
        !self.is_valid
    }

    /// The payload is that of `output`.
    pub open spec fn carries(&self, output: bool) -> bool {
        self.is_valid == output
    }

    /// The envelope is one that a constructor can have made.
    pub open spec fn wf(&self) -> bool {
        &&& outcome_wf(self.status_code, self.error_msg)
        &&& self.status_code != FFIResponseStatus::NoError ==> self.payload_is_zero()
    }

    /// What the envelope owns: the message if there is one, and itself.
    pub open spec fn allocations(&self) -> Seq<Allocation> {
        allocations_of(0, self.error_msg)
    }

    /// Records how the check ended: the verdict of a success, or the status
    /// and message of a failure beside `false`.
    pub fn from_result(result: Result<bool, Failure>) -> (r: VerifyPoSTResponse)
        ensures
            r.wf(),
            match result {
                Ok(output) => reports_success(r.status_code, r.error_msg) && r.carries(output),
                Err(err) => reports_failure(r.status_code, r.error_msg, err) && r.payload_is_zero(),
            },
    {
        let mut response = VerifyPoSTResponse::default();
        match result {
            Ok(output) => {
                response.is_valid = output;
            },
            Err(err) => {
                let (code, msg) = err_code_and_msg(&err);
                response.status_code = code;
                response.error_msg = Some(msg);
            },
        }
        response
    }
}

impl Default for VerifyPoSTResponse {
    /// The envelope before anything is recorded in it: a success with a zero
    /// payload.
    fn default() -> (r: VerifyPoSTResponse)
        ensures
            reports_success(r.status_code, r.error_msg),
            r.payload_is_zero(),
            r.wf(),
    {
        VerifyPoSTResponse {
            status_code: FFIResponseStatus::NoError,
            error_msg: None,
            is_valid: false,
        }
    }
}

/// Destroys the envelope together with its message, and lists what was given
/// back.
pub fn destroy_verify_post_response(ptr: Box<VerifyPoSTResponse>) -> (released: Vec<Allocation>)
    ensures
        released@ == ptr.allocations(),
{
    release(0, &ptr.error_msg)
}

// ---------------------------------------------------------------------------
// Init sector builder
// ---------------------------------------------------------------------------

/// The outcome of setting up a sector builder.
#[derive(Debug, PartialEq, Eq)]
pub struct InitSectorBuilderResponse {
    pub status_code: FFIResponseStatus,
    pub error_msg: Option<OwnedMessage>,
    /// The handle of the new builder, which stays the caller's.
    pub sector_builder: SectorBuilderHandle,
}

impl InitSectorBuilderResponse {
    /// Every payload field holds its zero value.
    pub open spec fn payload_is_zero(&self) -> bool {
        self.sector_builder@ == 0
    }

    /// The payload is that of `output`.
    pub open spec fn carries(&self, output: SectorBuilderHandle) -> bool {
        self.sector_builder == output
    }

    /// The envelope is one that a constructor can have made.
    pub open spec fn wf(&self) -> bool {
        &&& outcome_wf(self.status_code, self.error_msg)
        &&& self.status_code != FFIResponseStatus::NoError ==> self.payload_is_zero()
    }

    /// What the envelope owns: the message if there is one, and itself.
    pub open spec fn allocations(&self) -> Seq<Allocation> {
        allocations_of(0, self.error_msg)
    }

    /// Records how the set-up ended: the handle of a success, stored as it
    /// came, or the status and message of a failure beside the null handle.
    pub fn from_result(result: Result<SectorBuilderHandle, Failure>) -> (r: InitSectorBuilderResponse)
        ensures
            r.wf(),
            match result {
                Ok(output) => reports_success(r.status_code, r.error_msg) && r.carries(output),
                Err(err) => reports_failure(r.status_code, r.error_msg, err) && r.payload_is_zero(),
            },
    {
        let mut response = InitSectorBuilderResponse::default();
        match result {
            Ok(output) => {
                response.sector_builder = output;
            },
            Err(err) => {
                let (code, msg) = err_code_and_msg(&err);
                response.status_code = code;
                response.error_msg = Some(msg);
            },
        }
        response
    }
}

impl Default for InitSectorBuilderResponse {
    /// The envelope before anything is recorded in it: a success with a zero
    /// payload.
    fn default() -> (r: InitSectorBuilderResponse)
        ensures
            reports_success(r.status_code, r.error_msg),
            r.payload_is_zero(),
            r.wf(),
    {
        InitSectorBuilderResponse {
            status_code: FFIResponseStatus::NoError,
            error_msg: None,
            sector_builder: SectorBuilderHandle::null(),
        }
    }
}

/// Destroys the envelope together with its message, and lists what was given
/// back. The builder behind the handle is not
/// part of the envelope and is left alone.
pub fn destroy_init_sector_builder_response(ptr: Box<InitSectorBuilderResponse>) -> (released: Vec<Allocation>)
    ensures
        released@ == ptr.allocations(),
{
    release(0, &ptr.error_msg)
}

// ---------------------------------------------------------------------------
// Add piece
// ---------------------------------------------------------------------------

/// The outcome of adding a piece to a staged sector.
#[derive(Debug, PartialEq, Eq)]
pub struct AddPieceResponse {
    pub status_code: FFIResponseStatus,
    pub error_msg: Option<OwnedMessage>,
    /// The sector that took the piece.
    pub sector_id: u64,
}

impl AddPieceResponse {
    /// Every payload field holds its zero value.
    pub open spec fn payload_is_zero(&self) -> bool {
        self.sector_id == 0
    }

    /// The payload is that of `output`.
    pub open spec fn carries(&self, output: u64) -> bool {
        self.sector_id == output
    }

    /// The envelope is one that a constructor can have made.
    pub open spec fn wf(&self) -> bool {
        &&& outcome_wf(self.status_code, self.error_msg)
        &&& self.status_code != FFIResponseStatus::NoError ==> self.payload_is_zero()
    }

    /// What the envelope owns: the message if there is one, and itself.
    pub open spec fn allocations(&self) -> Seq<Allocation> {
        allocations_of(0, self.error_msg)
    }

    /// Records how adding the piece ended: the sector of a success, or the
    /// status and message of a failure beside sector zero.
    pub fn from_result(result: Result<u64, Failure>) -> (r: AddPieceResponse)
        ensures
            r.wf(),
            match result {
                Ok(output) => reports_success(r.status_code, r.error_msg) && r.carries(output),
                Err(err) => reports_failure(r.status_code, r.error_msg, err) && r.payload_is_zero(),
            },
    {
        let mut response = AddPieceResponse::default();
        match result {
            Ok(output) => {
                response.sector_id = output;
            },
            Err(err) => {
                let (code, msg) = err_code_and_msg(&err);
                response.status_code = code;
                response.error_msg = Some(msg);
            },
        }
        response
    }
}

impl Default for AddPieceResponse {
    /// The envelope before anything is recorded in it: a success with a zero
    /// payload.
    fn default() -> (r: AddPieceResponse)
        ensures
            reports_success(r.status_code, r.error_msg),
            r.payload_is_zero(),
            r.wf(),
    {
        AddPieceResponse {
            status_code: FFIResponseStatus::NoError,
            error_msg: None,
            sector_id: 0,
        }
    }
}

/// Destroys the envelope together with its message, and lists what was given
/// back.
pub fn destroy_add_piece_response(ptr: Box<AddPieceResponse>) -> (released: Vec<Allocation>)
    ensures
        released@ == ptr.allocations(),
{
    release(0, &ptr.error_msg)
}

// ---------------------------------------------------------------------------
// Max staged bytes per sector
// ---------------------------------------------------------------------------

/// The outcome of asking how many bytes a staged sector takes.
#[derive(Debug, PartialEq, Eq)]
pub struct GetMaxStagedBytesPerSector {
    pub status_code: FFIResponseStatus,
    pub error_msg: Option<OwnedMessage>,
    /// How many bytes a staged sector takes.
    pub max_staged_bytes_per_sector: u64,
}

impl GetMaxStagedBytesPerSector {
    /// Every payload field holds its zero value.
    pub open spec fn payload_is_zero(&self) -> bool {
        self.max_staged_bytes_per_sector == 0
    }

    /// The payload is that of `output`.
    pub open spec fn carries(&self, output: u64) -> bool {
        self.max_staged_bytes_per_sector == output
    }

    /// The envelope is one that a constructor can have made.
    pub open spec fn wf(&self) -> bool {
        &&& outcome_wf(self.status_code, self.error_msg)
        &&& self.status_code != FFIResponseStatus::NoError ==> self.payload_is_zero()
    }

    /// What the envelope owns: the message if there is one, and itself.
    pub open spec fn allocations(&self) -> Seq<Allocation> {
        allocations_of(0, self.error_msg)
    }

    /// Records how the question ended: the byte count of a success, or the
    /// status and message of a failure beside a count of zero.
    pub fn from_result(result: Result<u64, Failure>) -> (r: GetMaxStagedBytesPerSector)
        ensures
            r.wf(),
            match result {
                Ok(output) => reports_success(r.status_code, r.error_msg) && r.carries(output),
                Err(err) => reports_failure(r.status_code, r.error_msg, err) && r.payload_is_zero(),
            },
    {
        let mut response = GetMaxStagedBytesPerSector::default();
        match result {
            Ok(output) => {
                response.max_staged_bytes_per_sector = output;
            },
            Err(err) => {
                let (code, msg) = err_code_and_msg(&err);
                response.status_code = code;
                response.error_msg = Some(msg);
            },
        }
        response
    }
}

impl Default for GetMaxStagedBytesPerSector {
    /// The envelope before anything is recorded in it: a success with a zero
    /// payload.
    fn default() -> (r: GetMaxStagedBytesPerSector)
        ensures
            reports_success(r.status_code, r.error_msg),
            r.payload_is_zero(),
            r.wf(),
    {
        GetMaxStagedBytesPerSector {
            status_code: FFIResponseStatus::NoError,
            error_msg: None,
            max_staged_bytes_per_sector: 0,
        }
    }
}

/// Destroys the envelope together with its message, and lists what was given
/// back.
pub fn destroy_get_max_user_bytes_per_staged_sector_response(ptr: Box<GetMaxStagedBytesPerSector>) -> (released: Vec<Allocation>)
    ensures
        released@ == ptr.allocations(),
{
    release(0, &ptr.error_msg)
}

} // verus!

//! Data records and the access-request state machine.
use vstd::prelude::*;
use crate::principal::Principal;
use crate::text::{byte_len, utf8_len};

verus! {

/// Largest size in bytes of a record's content hash.
pub const MAX_HASH_LEN: usize = 64;

/// Largest size in bytes of a record's type tag.
pub const MAX_TYPE_LEN: usize = 32;

/// Largest size in bytes of a record's description.
pub const MAX_DESCRIPTION_LEN: usize = 256;

/// Largest size in bytes of the purpose stated in an access request.
pub const MAX_PURPOSE_LEN: usize = 256;

/// Largest size in bytes of the reason given for a denial.
pub const MAX_REASON_LEN: usize = 128;

/// Seconds in one day of access.
pub const SECONDS_PER_DAY: i64 = 86400;

#[derive(Clone, Copy, Debug, PartialEq, Eq, Structural)]
pub enum AccessStatus {
    Pending,
    Approved,
    Denied,
    Expired,
}

#[derive(Clone, Copy, Debug, PartialEq, Eq, Structural)]
pub enum DataAccessError {
    /// The caller is not the principal the operation requires.
    Unauthorized,
    /// The record is not open to new requests.
    DataNotAvailable,
    /// The request is not in the state the operation starts from.
    InvalidRequestStatus,
    /// The request does not target the record it was presented with.
    MismatchedRequest,
    /// A text is too long, or a duration is zero.
    InvalidInput,
    /// The record's access counter cannot grow any further.
    CounterSaturated,
    /// A computed timestamp does not fit in 64 bits.
    ArithmeticOverflow,
}

/// Metadata of a dataset kept outside the system, addressed by its content hash.
#[derive(Clone, Debug)]
pub struct DataRecord {
    pub owner: Principal,
    pub data_hash: String,
    pub data_type: String,
    pub description: String,
    pub price: u64,
    pub is_available: bool,
    pub access_count: u32,
    pub created_at: i64,
    pub updated_at: i64,
}

/// A data record as a mathematical value: identities as bytes, texts as characters.
pub struct DataRecordView {
    pub owner: Seq<u8>,
    pub data_hash: Seq<char>,
    pub data_type: Seq<char>,
    pub description: Seq<char>,
    pub price: u64,
    pub is_available: bool,
    pub access_count: u32,
    pub created_at: i64,
    pub updated_at: i64,
}

impl View for DataRecord {
    type V = DataRecordView;

    open spec fn view(&self) -> DataRecordView {
        DataRecordView {
            owner: self.owner@,
            data_hash: self.data_hash@,
            data_type: self.data_type@,
            description: self.description@,
            price: self.price,
            is_available: self.is_available,
            access_count: self.access_count,
            created_at: self.created_at,
            updated_at: self.updated_at,
        }
    }
}

impl DataRecord {
    /// The texts respect their limits and the record was not updated before it was made.
    pub open spec fn wf(&self) -> bool {
        &&& byte_len(self.data_hash@) <= MAX_HASH_LEN
        &&& byte_len(self.data_type@) <= MAX_TYPE_LEN
        &&& byte_len(self.description@) <= MAX_DESCRIPTION_LEN
        &&& self.created_at <= self.updated_at
    }

    /// Tells whether the record is well formed.
    pub fn check_wf(&self) -> (r: bool)
        ensures
            r == self.wf(),
    {
        utf8_len(&self.data_hash) <= MAX_HASH_LEN && utf8_len(&self.data_type) <= MAX_TYPE_LEN
            && utf8_len(&self.description) <= MAX_DESCRIPTION_LEN && self.created_at
            <= self.updated_at
    }

    /// What every operation keeps between the record before it and the record after it:
    /// the owner and creation time stay, the update time and the access count never go back.
    pub open spec fn evolves_to(&self, next: &DataRecord) -> bool {
        &&& next.owner == self.owner
        &&& next.created_at == self.created_at
        &&& self.updated_at <= next.updated_at
        &&& self.access_count <= next.access_count
    }
}

/// A third party's time-boxed petition to access one data record.
#[derive(Clone, Debug)]
pub struct AccessRequest {
    pub data_record: Principal,
    pub requester: Principal,
    pub owner: Principal,
    pub purpose: String,
    pub duration_days: u16,
    pub status: AccessStatus,
    pub requested_at: i64,
    pub approved_at: i64,
    pub expires_at: i64,
    pub denial_reason: Option<String>,
}

/// An access request as a mathematical value: identities as bytes, texts as characters.
pub struct AccessRequestView {
    pub data_record: Seq<u8>,
    pub requester: Seq<u8>,
    pub owner: Seq<u8>,
    pub purpose: Seq<char>,
    pub duration_days: u16,
    pub status: AccessStatus,
    pub requested_at: i64,
    pub approved_at: i64,
    pub expires_at: i64,
    pub denial_reason: Option<Seq<char>>,
}

impl View for AccessRequest {
    type V = AccessRequestView;

    open spec fn view(&self) -> AccessRequestView {
        AccessRequestView {
            data_record: self.data_record@,
            requester: self.requester@,
            owner: self.owner@,
            purpose: self.purpose@,
            duration_days: self.duration_days,
            status: self.status,
            requested_at: self.requested_at,
            approved_at: self.approved_at,
            expires_at: self.expires_at,
            denial_reason: match self.denial_reason {
                Some(t) => Some(t@),
                None => None,
            },
        }
    }
}

/// The moment at which an access granted at `approved_at` for `days` days ends.
pub open spec fn expiry_of(approved_at: int, days: int) -> int {
    approved_at + days * SECONDS_PER_DAY
}

impl AccessRequest {
    pub open spec fn wf(&self) -> bool {
        &&& byte_len(self.purpose@) <= MAX_PURPOSE_LEN
        &&& self.duration_days >= 1
        &&& (self.status == AccessStatus::Pending || self.status == AccessStatus::Denied) ==> {
            self.approved_at == 0 && self.expires_at == 0
        }
        &&& (self.status == AccessStatus::Approved || self.status == AccessStatus::Expired) ==> {
            self.expires_at == expiry_of(self.approved_at as int, self.duration_days as int)
        }
        &&& self.denial_reason is Some ==> {
            &&& self.status == AccessStatus::Denied
            &&& byte_len(self.denial_reason->Some_0@) <= MAX_REASON_LEN
        }
    }

    /// Tells whether the request is well formed.
    pub fn check_wf(&self) -> (r: bool)
        ensures
            r == self.wf(),
    {
        if utf8_len(&self.purpose) > MAX_PURPOSE_LEN || self.duration_days < 1 {
            return false;
        }
        let unset = self.approved_at == 0 && self.expires_at == 0;
        let times_ok = match self.status {
            AccessStatus::Pending | AccessStatus::Denied => unset,
            AccessStatus::Approved | AccessStatus::Expired => {
                let span: i64 = self.duration_days as i64 * SECONDS_PER_DAY;
                self.approved_at <= i64::MAX - span && self.expires_at == self.approved_at + span
            },
        };
        let reason_ok = match &self.denial_reason {
            Some(t) => self.status == AccessStatus::Denied && utf8_len(t) <= MAX_REASON_LEN,
            None => true,
        };
        times_ok && reason_ok
    }

    /// The status as a reader at time `now` must take it: an approval whose expiry has
    /// come counts as expired, whether or not that was written down.
    pub open spec fn spec_effective_status(&self, now: i64) -> AccessStatus {
        if self.status == AccessStatus::Approved && now >= self.expires_at {
            AccessStatus::Expired
        } else {
            self.status
        }
    }

    pub fn effective_status(&self, now: i64) -> (r: AccessStatus)
        ensures
            r == self.spec_effective_status(now),
    {
        if self.status == AccessStatus::Approved && now >= self.expires_at {
            AccessStatus::Expired
        } else {
            self.status
        }
    }
}

/// The principal that registers a new record.
pub struct RegisterData {
    pub owner: Principal,
}

/// A record together with the principal that asks to change its price.
pub struct UpdateDataPrice {
    pub data_record: DataRecord,
    pub owner: Principal,
}

/// A record together with the principal that asks to flip its availability.
pub struct ToggleDataAvailability {
    pub data_record: DataRecord,
    pub owner: Principal,
}

/// A record, its address, and the principal that asks for access to it.
pub struct RequestDataAccess {
    pub data_record_key: Principal,
    pub data_record: DataRecord,
    pub requester: Principal,
}

/// A record, its address, one request, and the principal that approves it.
pub struct ApproveDataAccess {
    pub data_record_key: Principal,
    pub data_record: DataRecord,
    pub access_request: AccessRequest,
    pub owner: Principal,
}

/// A record, one request, and the principal that denies it.
pub struct DenyDataAccess {
    pub data_record: DataRecord,
    pub access_request: AccessRequest,
    pub owner: Principal,
}

/// Why registering these texts fails, if it does.
pub open spec fn register_error(
    data_hash: Seq<char>,
    data_type: Seq<char>,
    description: Seq<char>,
) -> Option<DataAccessError> {
    if byte_len(data_hash) > MAX_HASH_LEN || byte_len(data_type) > MAX_TYPE_LEN
        || byte_len(description) > MAX_DESCRIPTION_LEN {
        Some(DataAccessError::InvalidInput)
    } else {
        None
    }
}

/// Creates a record owned by the registering principal, open to requests, with no
/// accesses granted and both timestamps at `now`.
pub fn register_data(
    ctx: &RegisterData,
    data_hash: String,
    data_type: String,
    description: String,
    price: u64,
    now: i64,
) -> (r: Result<DataRecord, DataAccessError>)
    ensures
        register_error(data_hash@, data_type@, description@) matches Some(e) ==> r == Err::<
            DataRecord,
            DataAccessError,
        >(e),
        register_error(data_hash@, data_type@, description@) is None ==> r == Ok::<
            DataRecord,
            DataAccessError,
        >(
            (DataRecord {
                owner: ctx.owner,
                data_hash,
                data_type,
                description,
                price,
                is_available: true,
                access_count: 0,
                created_at: now,
                updated_at: now,
            }),
        ),
        r matches Ok(d) ==> d.wf(),
{
    if utf8_len(&data_hash) > MAX_HASH_LEN || utf8_len(&data_type) > MAX_TYPE_LEN || utf8_len(
        &description,
    ) > MAX_DESCRIPTION_LEN {
        return Err(DataAccessError::InvalidInput);
    }
    Ok(
        DataRecord {
            owner: ctx.owner,
            data_hash,
            data_type,
            description,
            price,
            is_available: true,
            access_count: 0,
            created_at: now,
            updated_at: now,
        },
    )
}

/// Sets a new price; only the record's owner may. Any price, zero included, is accepted.
pub fn update_data_price(ctx: &mut UpdateDataPrice, new_price: u64, now: i64) -> (r: Result<
    (),
    DataAccessError,
>)
    requires
        old(ctx).data_record.wf(),
        old(ctx).data_record.updated_at <= now,
    ensures
        final(ctx).owner == old(ctx).owner,
        old(ctx).data_record.owner@ != old(ctx).owner@ ==> r == Err::<(), DataAccessError>(
            DataAccessError::Unauthorized,
        ) && final(ctx).data_record == old(ctx).data_record,
        old(ctx).data_record.owner@ == old(ctx).owner@ ==> r is Ok && final(ctx).data_record == (
        DataRecord { price: new_price, updated_at: now, ..old(ctx).data_record }),
        final(ctx).data_record.wf(),
        old(ctx).data_record.evolves_to(&final(ctx).data_record),
{
    if !ctx.data_record.owner.same_as(&ctx.owner) {
        return Err(DataAccessError::Unauthorized);
    }
    ctx.data_record.price = new_price;
    ctx.data_record.updated_at = now;
    Ok(())
}

/// The record `after` is `before` with its availability flipped at time `now`.
pub open spec fn toggled(before: DataRecord, after: DataRecord, now: i64) -> bool {
    after == (DataRecord { is_available: !before.is_available, updated_at: now, ..before })
}

/// Opens a closed record to requests, or closes an open one; only its owner may.
/// Requests approved earlier are not affected.
pub fn toggle_data_availability(ctx: &mut ToggleDataAvailability, now: i64) -> (r: Result<
    (),
    DataAccessError,
>)
    requires
        old(ctx).data_record.wf(),
        old(ctx).data_record.updated_at <= now,
    ensures
        final(ctx).owner == old(ctx).owner,
        old(ctx).data_record.owner@ != old(ctx).owner@ ==> r == Err::<(), DataAccessError>(
            DataAccessError::Unauthorized,
        ) && final(ctx).data_record == old(ctx).data_record,
        old(ctx).data_record.owner@ == old(ctx).owner@ ==> r is Ok && toggled(
            old(ctx).data_record,
            final(ctx).data_record,
            now,
        ),
        final(ctx).data_record.wf(),
        old(ctx).data_record.evolves_to(&final(ctx).data_record),
{
    if !ctx.data_record.owner.same_as(&ctx.owner) {
        return Err(DataAccessError::Unauthorized);
    }
    ctx.data_record.is_available = !ctx.data_record.is_available;
    ctx.data_record.updated_at = now;
    Ok(())
}

/// Why a request for `days` days with this purpose fails on `record`, if it does.
pub open spec fn request_error(record: DataRecord, purpose: Seq<char>, days: u16) -> Option<
    DataAccessError,
> {
    if !record.is_available {
        Some(DataAccessError::DataNotAvailable)
    } else if days == 0 || byte_len(purpose) > MAX_PURPOSE_LEN {
        Some(DataAccessError::InvalidInput)
    } else {
        None
    }
}

/// Files a pending request for access to an available record; the record's owner is
/// copied into it. The owner may request access to their own record.
pub fn request_data_access(
    ctx: &RequestDataAccess,
    purpose: String,
    duration_days: u16,
    now: i64,
) -> (r: Result<AccessRequest, DataAccessError>)
    ensures
        request_error(ctx.data_record, purpose@, duration_days) matches Some(e) ==> r == Err::<
            AccessRequest,
            DataAccessError,
        >(e),
        request_error(ctx.data_record, purpose@, duration_days) is None ==> r == Ok::<
            AccessRequest,
            DataAccessError,
        >(
            (AccessRequest {
                data_record: ctx.data_record_key,
                requester: ctx.requester,
                owner: ctx.data_record.owner,
                purpose,
                duration_days,
                status: AccessStatus::Pending,
                requested_at: now,
                approved_at: 0,
                expires_at: 0,
                denial_reason: None,
            }),
        ),
        r matches Ok(q) ==> q.wf(),
{
    if !ctx.data_record.is_available {
        return Err(DataAccessError::DataNotAvailable);
    }
    if duration_days == 0 || utf8_len(&purpose) > MAX_PURPOSE_LEN {
        return Err(DataAccessError::InvalidInput);
    }
    Ok(
        AccessRequest {
            data_record: ctx.data_record_key,
            requester: ctx.requester,
            owner: ctx.data_record.owner,
            purpose,
            duration_days,
            status: AccessStatus::Pending,
            requested_at: now,
            approved_at: 0,
            expires_at: 0,
            denial_reason: None,
        },
    )
}

/// Why approving fails at time `now`, if it does; the first failing check wins.
pub open spec fn approve_error(ctx: ApproveDataAccess, now: i64) -> Option<DataAccessError> {
    if ctx.data_record.owner@ != ctx.owner@ {
        Some(DataAccessError::Unauthorized)
    } else if ctx.access_request.data_record@ != ctx.data_record_key@ {
        Some(DataAccessError::MismatchedRequest)
    } else if ctx.access_request.status != AccessStatus::Pending {
        Some(DataAccessError::InvalidRequestStatus)
    } else if ctx.data_record.access_count == u32::MAX {
        Some(DataAccessError::CounterSaturated)
    } else if expiry_of(now as int, ctx.access_request.duration_days as int) > i64::MAX {
        Some(DataAccessError::ArithmeticOverflow)
    } else {
        None
    }
}

/// The record `after` is `before` with one more access granted at time `now`.
pub open spec fn approval_step(before: DataRecord, after: DataRecord, now: i64) -> bool {
    &&& before.access_count < u32::MAX
    &&& after == (DataRecord {
        access_count: (before.access_count + 1) as u32,
        updated_at: now,
        ..before
    })
}

/// Grants a pending request: it becomes approved at `now` and expires `duration_days`
/// days later, and the record counts one more access. Only the record's owner may, and
/// only for a request on that record. On failure nothing changes.
pub fn approve_data_access(ctx: &mut ApproveDataAccess, now: i64) -> (r: Result<
    (),
    DataAccessError,
>)
    requires
        old(ctx).data_record.wf(),
        old(ctx).access_request.wf(),
        old(ctx).data_record.updated_at <= now,
    ensures
        approve_error(*old(ctx), now) matches Some(e) ==> r == Err::<(), DataAccessError>(e)
            && *final(ctx) == *old(ctx),
        approve_error(*old(ctx), now) is None ==> {
            &&& r is Ok
            &&& final(ctx).access_request == (AccessRequest {
                status: AccessStatus::Approved,
                approved_at: now,
                expires_at: expiry_of(now as int, old(ctx).access_request.duration_days as int)
                    as i64,
                ..old(ctx).access_request
            })
            &&& approval_step(old(ctx).data_record, final(ctx).data_record, now)
            &&& final(ctx).data_record_key == old(ctx).data_record_key
            &&& final(ctx).owner == old(ctx).owner
        },
        final(ctx).data_record.wf(),
        final(ctx).access_request.wf(),
        old(ctx).data_record.evolves_to(&final(ctx).data_record),
{
    if !ctx.data_record.owner.same_as(&ctx.owner) {
        return Err(DataAccessError::Unauthorized);
    }
    if !ctx.access_request.data_record.same_as(&ctx.data_record_key) {
        return Err(DataAccessError::MismatchedRequest);
    }
    if ctx.access_request.status != AccessStatus::Pending {
        return Err(DataAccessError::InvalidRequestStatus);
    }
    if ctx.data_record.access_count == u32::MAX {
        return Err(DataAccessError::CounterSaturated);
    }
    let span: i64 = ctx.access_request.duration_days as i64 * SECONDS_PER_DAY;
    if now > i64::MAX - span {
        return Err(DataAccessError::ArithmeticOverflow);
    }
    ctx.access_request.status = AccessStatus::Approved;
    ctx.access_request.approved_at = now;
    ctx.access_request.expires_at = now + span;
    ctx.data_record.access_count = ctx.data_record.access_count + 1;
    ctx.data_record.updated_at = now;
    Ok(())
}

/// Why denying with this reason fails, if it does; the first failing check wins.
pub open spec fn deny_error(ctx: DenyDataAccess, reason: Seq<char>) -> Option<DataAccessError> {
    if ctx.data_record.owner@ != ctx.owner@ {
        Some(DataAccessError::Unauthorized)
    } else if ctx.access_request.status != AccessStatus::Pending {
        Some(DataAccessError::InvalidRequestStatus)
    } else if byte_len(reason) > MAX_REASON_LEN {
        Some(DataAccessError::InvalidInput)
    } else {
        None
    }
}

/// Refuses a pending request and records why; only the record's owner may.
/// The record itself is left as it is.
pub fn deny_data_access(ctx: &mut DenyDataAccess, reason: String) -> (r: Result<
    (),
    DataAccessError,
>)
    requires
        old(ctx).access_request.wf(),
    ensures
        deny_error(*old(ctx), reason@) matches Some(e) ==> r == Err::<(), DataAccessError>(e)
            && *final(ctx) == *old(ctx),
        deny_error(*old(ctx), reason@) is None ==> {
            &&& r is Ok
            &&& final(ctx).access_request == (AccessRequest {
                status: AccessStatus::Denied,
                denial_reason: Some(reason),
                ..old(ctx).access_request
            })
        },
        final(ctx).data_record == old(ctx).data_record,
        final(ctx).owner == old(ctx).owner,
        final(ctx).access_request.wf(),
{
    if !ctx.data_record.owner.same_as(&ctx.owner) {
        return Err(DataAccessError::Unauthorized);
    }
    if ctx.access_request.status != AccessStatus::Pending {
        return Err(DataAccessError::InvalidRequestStatus);
    }
    if utf8_len(&reason) > MAX_REASON_LEN {
        return Err(DataAccessError::InvalidInput);
    }
    ctx.access_request.status = AccessStatus::Denied;
    ctx.access_request.denial_reason = Some(reason);
    Ok(())
}

/// Writes down an expiry that has come: an approved request whose expiry is at or
/// before `now` becomes expired; any other request is left as it is.
pub fn refresh_status(request: &mut AccessRequest, now: i64)
    requires
        old(request).wf(),
    ensures
        *final(request) == (AccessRequest {
            status: old(request).spec_effective_status(now),
            ..*old(request)
        }),
        final(request).wf(),
{
    if request.status == AccessStatus::Approved && now >= request.expires_at {
        request.status = AccessStatus::Expired;
    }
}

/// Over any run of operations on one record, where each step keeps what
/// `evolves_to` demands, every later record keeps the owner and creation time of
/// every earlier one, and its update time and access count are no smaller.
pub proof fn lemma_record_history(history: Seq<DataRecord>)
    requires
        forall|i: int| 0 <= i < history.len() - 1 ==> #[trigger] history[i].evolves_to(
            &history[i + 1],
        ),
    ensures
        forall|i: int, j: int|
            0 <= i <= j < history.len() ==> #[trigger] history[i].evolves_to(&history[j]),
    decreases history.len(),
{
    if history.len() > 1 {
        let prefix = history.drop_last();
        assert forall|i: int| 0 <= i < prefix.len() - 1 implies #[trigger] prefix[i].evolves_to(
            &prefix[i + 1],
        ) by {
            assert(history[i].evolves_to(&history[i + 1]));
        }
        lemma_record_history(prefix);
        assert forall|i: int, j: int| 0 <= i <= j < history.len() implies #[trigger] history[i].evolves_to(
            &history[j],
        ) by {
            if j < history.len() - 1 {
                assert(prefix[i].evolves_to(&prefix[j]));
            } else if i < j {
                assert(prefix[i].evolves_to(&prefix[j - 1]));
                let m = j - 1;
                assert(history[m].evolves_to(&history[m + 1]));
            }
        }
    }
}

/// After k approvals on one record, none of them saturating, the record counts
/// exactly k more accesses than before the first.
pub proof fn lemma_approvals_add_up(history: Seq<DataRecord>, times: Seq<i64>)
    requires
        history.len() >= 1,
        times.len() == history.len() - 1,
        forall|i: int| 0 <= i < times.len() ==> #[trigger] approval_step(
            history[i],
            history[i + 1],
            times[i],
        ),
    ensures
        history.last().access_count == history[0].access_count + times.len(),
    decreases history.len(),
{
    if history.len() > 1 {
        let prefix = history.drop_last();
        let earlier = times.drop_last();
        assert forall|i: int| 0 <= i < earlier.len() implies #[trigger] approval_step(
            prefix[i],
            prefix[i + 1],
            earlier[i],
        ) by {
            assert(approval_step(history[i], history[i + 1], times[i]));
        }
        lemma_approvals_add_up(prefix, earlier);
        let k = times.len() - 1;
        assert(approval_step(history[k], history[k + 1], times[k]));
    }
}

/// Toggling availability twice gives back the availability the record started with;
/// only the update time differs.
pub proof fn lemma_toggle_twice(
    first: DataRecord,
    second: DataRecord,
    third: DataRecord,
    t1: i64,
    t2: i64,
)
    requires
        toggled(first, second, t1),
        toggled(second, third, t2),
    ensures
        third.is_available == first.is_available,
        third == (DataRecord { updated_at: t2, ..first }),
{
}

/// Every well-formed request that is approved expires exactly its duration in days
/// after its approval, and one that is pending or denied has neither time set.
pub proof fn lemma_request_times(request: AccessRequest)
    requires
        request.wf(),
    ensures
        request.status == AccessStatus::Approved ==> request.expires_at == request.approved_at
            + request.duration_days * 86400,
        (request.status == AccessStatus::Pending || request.status == AccessStatus::Denied)
            ==> request.approved_at == 0 && request.expires_at == 0,
{
}

} // verus!

use biocoin::principal::Principal;
use biocoin::registry::{
    approve_data_access, deny_data_access, refresh_status, register_data, request_data_access,
    toggle_data_availability, update_data_price, AccessRequest, AccessStatus, ApproveDataAccess,
    DataAccessError, DataRecord, DenyDataAccess, RegisterData, RequestDataAccess,
    ToggleDataAvailability, UpdateDataPrice,
};

fn who(b: u8) -> Principal {
    Principal::new([b; 32])
}

fn registered(owner: Principal, now: i64) -> DataRecord {
    register_data(
        &RegisterData { owner },
        String::from("abc123"),
        String::from("genomic"),
        String::from("desc"),
        100,
        now,
    )
    .unwrap()
}

fn pending(record: &DataRecord, key: Principal, requester: Principal, days: u16, now: i64) -> AccessRequest {
    request_data_access(
        &RequestDataAccess { data_record_key: key, data_record: record.clone(), requester },
        String::from("study"),
        days,
        now,
    )
    .unwrap()
}

#[test]
fn register_and_update_price() {
    let o = who(1);
    let d = registered(o, 1000);
    assert!(d.owner == o);
    assert_eq!(d.data_hash, "abc123");
    assert_eq!(d.data_type, "genomic");
    assert_eq!(d.description, "desc");
    assert_eq!(d.price, 100);
    assert!(d.is_available);
    assert_eq!(d.access_count, 0);
    assert_eq!(d.created_at, 1000);
    assert_eq!(d.updated_at, 1000);

    let mut ctx = UpdateDataPrice { data_record: d, owner: o };
    assert_eq!(update_data_price(&mut ctx, 500, 1100), Ok(()));
    assert_eq!(ctx.data_record.price, 500);
    assert_eq!(ctx.data_record.updated_at, 1100);
    assert_eq!(ctx.data_record.created_at, 1000);
}

#[test]
fn unauthorized_price_update() {
    let o = who(1);
    let x = who(2);
    let mut ctx = UpdateDataPrice { data_record: registered(o, 1000), owner: o };
    update_data_price(&mut ctx, 500, 1100).unwrap();
    let mut ctx = UpdateDataPrice { data_record: ctx.data_record, owner: x };
    assert_eq!(update_data_price(&mut ctx, 1, 1150), Err(DataAccessError::Unauthorized));
    assert_eq!(ctx.data_record.price, 500);
    assert_eq!(ctx.data_record.updated_at, 1100);
    assert!(ctx.data_record.owner == o);
}

#[test]
fn price_may_be_zero() {
    let o = who(1);
    let mut ctx = UpdateDataPrice { data_record: registered(o, 10), owner: o };
    assert_eq!(update_data_price(&mut ctx, 0, 10), Ok(()));
    assert_eq!(ctx.data_record.price, 0);
}

#[test]
fn register_rejects_oversized_texts() {
    let o = who(1);
    let long_hash = "h".repeat(65);
    let r = register_data(
        &RegisterData { owner: o },
        long_hash,
        String::from("genomic"),
        String::from("desc"),
        1,
        0,
    );
    assert!(matches!(r, Err(DataAccessError::InvalidInput)));
    let r = register_data(
        &RegisterData { owner: o },
        "h".repeat(64),
        "t".repeat(32),
        "d".repeat(256),
        1,
        0,
    );
    assert!(r.is_ok());
    let r = register_data(
        &RegisterData { owner: o },
        String::from("abc"),
        "t".repeat(33),
        String::from("desc"),
        1,
        0,
    );
    assert!(matches!(r, Err(DataAccessError::InvalidInput)));
    // 129 characters of two bytes each: 258 bytes, over the limit of 256
    let r = register_data(
        &RegisterData { owner: o },
        String::from("abc"),
        String::from("t"),
        "é".repeat(129),
        1,
        0,
    );
    assert!(matches!(r, Err(DataAccessError::InvalidInput)));
}

#[test]
fn request_on_unavailable_data() {
    let o = who(1);
    let r = who(3);
    let mut ctx = ToggleDataAvailability { data_record: registered(o, 1000), owner: o };
    assert_eq!(toggle_data_availability(&mut ctx, 1200), Ok(()));
    assert!(!ctx.data_record.is_available);
    assert_eq!(ctx.data_record.updated_at, 1200);
    let req = request_data_access(
        &RequestDataAccess { data_record_key: who(9), data_record: ctx.data_record, requester: r },
        String::from("study"),
        7,
        1250,
    );
    assert!(matches!(req, Err(DataAccessError::DataNotAvailable)));
}

#[test]
fn toggle_twice_restores_availability() {
    let o = who(1);
    let mut ctx = ToggleDataAvailability { data_record: registered(o, 1000), owner: o };
    toggle_data_availability(&mut ctx, 1100).unwrap();
    toggle_data_availability(&mut ctx, 1200).unwrap();
    assert!(ctx.data_record.is_available);
    assert_eq!(ctx.data_record.updated_at, 1200);
    assert_eq!(ctx.data_record.created_at, 1000);
}

#[test]
fn toggle_by_stranger_is_unauthorized() {
    let mut ctx = ToggleDataAvailability { data_record: registered(who(1), 1000), owner: who(2) };
    assert_eq!(toggle_data_availability(&mut ctx, 1100), Err(DataAccessError::Unauthorized));
    assert!(ctx.data_record.is_available);
    assert_eq!(ctx.data_record.updated_at, 1000);
}

#[test]
fn request_rejects_zero_duration_and_long_purpose() {
    let o = who(1);
    let rctx = RequestDataAccess { data_record_key: who(9), data_record: registered(o, 0), requester: who(3) };
    let r = request_data_access(&rctx, String::from("study"), 0, 5);
    assert!(matches!(r, Err(DataAccessError::InvalidInput)));
    let r = request_data_access(&rctx, "p".repeat(257), 3, 5);
    assert!(matches!(r, Err(DataAccessError::InvalidInput)));
    let r = request_data_access(&rctx, "p".repeat(256), 3, 5);
    assert!(r.is_ok());
}

#[test]
fn owner_may_request_own_record() {
    let o = who(1);
    let d = registered(o, 0);
    let q = pending(&d, who(9), o, 2, 5);
    assert!(q.requester == o);
    assert!(q.owner == o);
    assert_eq!(q.status, AccessStatus::Pending);
}

#[test]
fn approve_flow() {
    let o = who(1);
    let r = who(3);
    let key = who(9);
    let d = registered(o, 1000);
    let q = pending(&d, key, r, 7, 1300);
    assert_eq!(q.status, AccessStatus::Pending);
    assert_eq!(q.requested_at, 1300);
    assert_eq!(q.approved_at, 0);
    assert_eq!(q.expires_at, 0);
    assert!(q.owner == o);
    assert!(q.data_record == key);
    let mut ctx = ApproveDataAccess { data_record_key: key, data_record: d, access_request: q, owner: o };
    assert_eq!(approve_data_access(&mut ctx, 1400), Ok(()));
    assert_eq!(ctx.access_request.status, AccessStatus::Approved);
    assert_eq!(ctx.access_request.approved_at, 1400);
    assert_eq!(ctx.access_request.expires_at, 1400 + 7 * 86400);
    assert_eq!(ctx.access_request.requested_at, 1300);
    assert_eq!(ctx.data_record.access_count, 1);
    assert_eq!(ctx.data_record.updated_at, 1400);
}

#[test]
fn double_approve_rejected() {
    let o = who(1);
    let key = who(9);
    let d = registered(o, 1000);
    let q = pending(&d, key, who(3), 7, 1300);
    let mut ctx = ApproveDataAccess { data_record_key: key, data_record: d, access_request: q, owner: o };
    approve_data_access(&mut ctx, 1400).unwrap();
    assert_eq!(approve_data_access(&mut ctx, 1500), Err(DataAccessError::InvalidRequestStatus));
    assert_eq!(ctx.data_record.access_count, 1);
    assert_eq!(ctx.data_record.updated_at, 1400);
    assert_eq!(ctx.access_request.approved_at, 1400);
}

#[test]
fn one_day_expiry() {
    let o = who(1);
    let key = who(9);
    let d = registered(o, 0);
    let q = pending(&d, key, who(3), 1, 10);
    let mut ctx = ApproveDataAccess { data_record_key: key, data_record: d, access_request: q, owner: o };
    approve_data_access(&mut ctx, 50).unwrap();
    assert_eq!(ctx.access_request.expires_at - ctx.access_request.approved_at, 86400);
}

#[test]
fn longest_duration_expiry() {
    let o = who(1);
    let key = who(9);
    let d = registered(o, 0);
    let q = pending(&d, key, who(3), 65535, 10);
    let mut ctx = ApproveDataAccess { data_record_key: key, data_record: d, access_request: q, owner: o };
    approve_data_access(&mut ctx, 1_700_000_000).unwrap();
    assert_eq!(ctx.access_request.expires_at, 1_700_000_000 + 65535 * 86400);
}

#[test]
fn approve_overflowing_expiry_fails() {
    let o = who(1);
    let key = who(9);
    let d = registered(o, 0);
    let q = pending(&d, key, who(3), 2, 10);
    let now = i64::MAX - 86400;
    let mut ctx = ApproveDataAccess { data_record_key: key, data_record: d, access_request: q, owner: o };
    assert_eq!(approve_data_access(&mut ctx, now), Err(DataAccessError::ArithmeticOverflow));
    assert_eq!(ctx.access_request.status, AccessStatus::Pending);
    assert_eq!(ctx.data_record.access_count, 0);
}

#[test]
fn approve_by_stranger_is_unauthorized() {
    let key = who(9);
    let d = registered(who(1), 0);
    let q = pending(&d, key, who(3), 2, 10);
    let mut ctx = ApproveDataAccess { data_record_key: key, data_record: d, access_request: q, owner: who(3) };
    assert_eq!(approve_data_access(&mut ctx, 20), Err(DataAccessError::Unauthorized));
    assert_eq!(ctx.access_request.status, AccessStatus::Pending);
}

#[test]
fn approve_for_other_record_is_mismatched() {
    let o = who(1);
    let d = registered(o, 0);
    let q = pending(&d, who(9), who(3), 2, 10);
    let mut ctx = ApproveDataAccess { data_record_key: who(8), data_record: d, access_request: q, owner: o };
    assert_eq!(approve_data_access(&mut ctx, 20), Err(DataAccessError::MismatchedRequest));
    assert_eq!(ctx.data_record.access_count, 0);
}

#[test]
fn approve_at_saturated_counter_fails() {
    let o = who(1);
    let key = who(9);
    let mut d = registered(o, 0);
    d.access_count = u32::MAX;
    let q = pending(&d, key, who(3), 2, 10);
    let mut ctx = ApproveDataAccess { data_record_key: key, data_record: d, access_request: q, owner: o };
    assert_eq!(approve_data_access(&mut ctx, 20), Err(DataAccessError::CounterSaturated));
    assert_eq!(ctx.data_record.access_count, u32::MAX);
    assert_eq!(ctx.access_request.status, AccessStatus::Pending);
}

#[test]
fn approvals_add_up() {
    let o = who(1);
    let key = who(9);
    let mut record = registered(o, 0);
    record.access_count = 5;
    for k in 0..4i64 {
        let q = pending(&record, key, who(3), 1, 10 + k);
        let mut ctx = ApproveDataAccess { data_record_key: key, data_record: record, access_request: q, owner: o };
        approve_data_access(&mut ctx, 100 + k).unwrap();
        record = ctx.data_record;
    }
    assert_eq!(record.access_count, 9);
    assert_eq!(record.updated_at, 103);
}

#[test]
fn deny_flow() {
    let o = who(1);
    let d = registered(o, 0);
    let q = pending(&d, who(9), who(3), 2, 10);
    let mut ctx = DenyDataAccess { data_record: d, access_request: q, owner: o };
    assert_eq!(deny_data_access(&mut ctx, String::from("not eligible")), Ok(()));
    assert_eq!(ctx.access_request.status, AccessStatus::Denied);
    assert_eq!(ctx.access_request.denial_reason, Some(String::from("not eligible")));
    assert_eq!(ctx.access_request.approved_at, 0);
    assert_eq!(ctx.access_request.expires_at, 0);
    assert_eq!(ctx.data_record.access_count, 0);
    assert_eq!(ctx.data_record.updated_at, 0);
    assert_eq!(
        deny_data_access(&mut ctx, String::from("again")),
        Err(DataAccessError::InvalidRequestStatus)
    );
    assert_eq!(ctx.access_request.denial_reason, Some(String::from("not eligible")));
}

#[test]
fn deny_errors() {
    let o = who(1);
    let d = registered(o, 0);
    let q = pending(&d, who(9), who(3), 2, 10);
    let mut ctx = DenyDataAccess { data_record: d, access_request: q, owner: who(3) };
    assert_eq!(deny_data_access(&mut ctx, String::from("no")), Err(DataAccessError::Unauthorized));
    ctx.owner = o;
    assert_eq!(deny_data_access(&mut ctx, "r".repeat(129)), Err(DataAccessError::InvalidInput));
    assert_eq!(ctx.access_request.status, AccessStatus::Pending);
    assert_eq!(ctx.access_request.denial_reason, None);
}

#[test]
fn expiry_is_observed_and_written_down() {
    let o = who(1);
    let key = who(9);
    let d = registered(o, 0);
    let q = pending(&d, key, who(3), 1, 10);
    let mut ctx = ApproveDataAccess { data_record_key: key, data_record: d, access_request: q, owner: o };
    approve_data_access(&mut ctx, 100).unwrap();
    let mut q = ctx.access_request;
    assert_eq!(q.effective_status(86499), AccessStatus::Approved);
    assert_eq!(q.effective_status(86500), AccessStatus::Expired);
    refresh_status(&mut q, 86499);
    assert_eq!(q.status, AccessStatus::Approved);
    refresh_status(&mut q, 86500);
    assert_eq!(q.status, AccessStatus::Expired);
    refresh_status(&mut q, 90000);
    assert_eq!(q.status, AccessStatus::Expired);
    assert_eq!(q.expires_at, 86500);
}

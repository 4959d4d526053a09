use inventory_core::api::{handle_get, handle_post, respond_get, respond_set};
use inventory_core::auth::{authorize, extract_bearer};
use inventory_core::errors::{http_status, ApiError};
use inventory_core::store::{InventoryRecord, InventoryTable};
use std::time::{SystemTime, UNIX_EPOCH};

const SECRET: &[u8] = b"shared-test-secret";

fn unix_now() -> u64 {
    SystemTime::now().duration_since(UNIX_EPOCH).unwrap().as_secs()
}

fn make_token(secret: &[u8], exp: u64) -> String {
    let mut claims = serde_json::Map::new();
    claims.insert(
        "sub".to_string(),
        serde_json::Value::String("user-1".to_string()),
    );
    claims.insert(
        "role".to_string(),
        serde_json::Value::String("admin".to_string()),
    );
    claims.insert(
        "exp".to_string(),
        serde_json::Value::Number(serde_json::Number::from(exp)),
    );
    jsonwebtoken::encode(
        &jsonwebtoken::Header::new(jsonwebtoken::Algorithm::HS256),
        &serde_json::Value::Object(claims),
        &jsonwebtoken::EncodingKey::from_secret(secret),
    )
    .unwrap()
}

fn valid_header(secret: &[u8]) -> String {
    format!("Bearer {}", make_token(secret, unix_now() + 3600))
}

#[test]
fn missing_header_is_unauthorized_with_no_store_effect() {
    let mut table = InventoryTable::new();
    table.set_stock(1, 10).unwrap();

    assert_eq!(authorize(None, SECRET), Err(ApiError::Unauthorized));
    assert_eq!(
        handle_get(None, SECRET, &table, 1),
        Err(ApiError::Unauthorized)
    );
    assert_eq!(
        handle_post(None, SECRET, &mut table, 1, 99),
        Err(ApiError::Unauthorized)
    );
    assert_eq!(
        table.read_stock(1),
        Ok(InventoryRecord { product_id: 1, stock: 10 })
    );
}

#[test]
fn non_bearer_header_is_unauthorized() {
    let mut table = InventoryTable::new();
    let header = format!("Basic {}", make_token(SECRET, unix_now() + 3600));
    assert_eq!(
        authorize(Some(header.as_str()), SECRET),
        Err(ApiError::Unauthorized)
    );
    assert_eq!(
        handle_post(Some(header.as_str()), SECRET, &mut table, 2, 5),
        Err(ApiError::Unauthorized)
    );
    assert_eq!(table.read_stock(2), Err(ApiError::NotFound));
}

#[test]
fn malformed_token_is_unauthorized() {
    assert_eq!(
        authorize(Some("Bearer not.a.token"), SECRET),
        Err(ApiError::Unauthorized)
    );
    assert_eq!(
        authorize(Some("Bearer "), SECRET),
        Err(ApiError::Unauthorized)
    );
}

#[test]
fn wrong_signature_is_unauthorized() {
    let header = format!(
        "Bearer {}",
        make_token(b"some-other-secret", unix_now() + 3600)
    );
    let table = InventoryTable::new();
    assert_eq!(
        authorize(Some(header.as_str()), SECRET),
        Err(ApiError::Unauthorized)
    );
    assert_eq!(
        handle_get(Some(header.as_str()), SECRET, &table, 1),
        Err(ApiError::Unauthorized)
    );
}

#[test]
fn expired_token_is_unauthorized() {
    let header = format!("Bearer {}", make_token(SECRET, unix_now() - 7200));
    let table = InventoryTable::new();
    assert_eq!(
        authorize(Some(header.as_str()), SECRET),
        Err(ApiError::Unauthorized)
    );
    assert_eq!(
        handle_get(Some(header.as_str()), SECRET, &table, 1),
        Err(ApiError::Unauthorized)
    );
}

#[test]
fn valid_token_is_authorized() {
    let header = valid_header(SECRET);
    assert_eq!(authorize(Some(header.as_str()), SECRET), Ok(()));
}

#[test]
fn extract_bearer_splits_off_the_prefix() {
    assert_eq!(extract_bearer("Bearer abc.def.ghi"), Some("abc.def.ghi"));
    assert_eq!(extract_bearer("Bearer "), Some(""));
    assert_eq!(extract_bearer("bearer abc"), None);
    assert_eq!(extract_bearer("Bear"), None);
    assert_eq!(extract_bearer(""), None);
}

#[test]
fn negative_stock_is_invalid_input_and_leaves_record_unchanged() {
    let mut table = InventoryTable::new();
    table.set_stock(3, 7).unwrap();
    assert_eq!(table.set_stock(3, -1), Err(ApiError::InvalidInput));
    assert_eq!(
        table.read_stock(3),
        Ok(InventoryRecord { product_id: 3, stock: 7 })
    );
    assert_eq!(table.set_stock(4, -50), Err(ApiError::InvalidInput));
    assert_eq!(table.read_stock(4), Err(ApiError::NotFound));
}

#[test]
fn set_then_read_returns_the_written_record() {
    let mut table = InventoryTable::new();
    assert_eq!(
        table.set_stock(11, 5),
        Ok(InventoryRecord { product_id: 11, stock: 5 })
    );
    assert_eq!(
        table.read_stock(11),
        Ok(InventoryRecord { product_id: 11, stock: 5 })
    );
}

#[test]
fn set_stock_twice_is_idempotent() {
    let mut table = InventoryTable::new();
    let first = table.set_stock(8, 20);
    let after_first = table.read_stock(8);
    let second = table.set_stock(8, 20);
    let after_second = table.read_stock(8);
    assert_eq!(first, second);
    assert_eq!(after_first, after_second);
    assert_eq!(
        after_second,
        Ok(InventoryRecord { product_id: 8, stock: 20 })
    );
}

#[test]
fn last_write_wins_for_the_same_product() {
    let mut table = InventoryTable::new();
    table.set_stock(6, 100).unwrap();
    table.set_stock(6, 250).unwrap();
    assert_eq!(
        table.read_stock(6),
        Ok(InventoryRecord { product_id: 6, stock: 250 })
    );
}

#[test]
fn read_of_a_product_never_set_is_not_found() {
    let table = InventoryTable::new();
    let r = table.read_stock(42);
    assert_eq!(r, Err(ApiError::NotFound));
    assert_ne!(r, Err(ApiError::InternalFailure));
    assert_ne!(r, Ok(InventoryRecord { product_id: 42, stock: 0 }));
}

#[test]
fn authorized_pipeline_reads_and_writes() {
    let mut table = InventoryTable::new();
    let header = valid_header(SECRET);
    assert_eq!(
        handle_post(Some(header.as_str()), SECRET, &mut table, 7, 42),
        Ok(InventoryRecord { product_id: 7, stock: 42 })
    );
    assert_eq!(
        handle_get(Some(header.as_str()), SECRET, &table, 7),
        Ok(InventoryRecord { product_id: 7, stock: 42 })
    );
    assert_eq!(
        handle_get(Some(header.as_str()), SECRET, &table, 8),
        Err(ApiError::NotFound)
    );
    assert_eq!(
        handle_post(Some(header.as_str()), SECRET, &mut table, 7, -3),
        Err(ApiError::InvalidInput)
    );
}

#[test]
fn unauthorized_decision_short_circuits_the_store() {
    let mut table = InventoryTable::new();
    table.set_stock(9, 1).unwrap();
    assert_eq!(respond_get(false, &table, 9), Err(ApiError::Unauthorized));
    assert_eq!(
        respond_set(false, &mut table, 9, 77),
        Err(ApiError::Unauthorized)
    );
    assert_eq!(
        table.read_stock(9),
        Ok(InventoryRecord { product_id: 9, stock: 1 })
    );
}

#[test]
fn error_classes_collapse_to_their_status_codes() {
    assert_eq!(http_status(ApiError::Unauthorized), 401);
    assert_eq!(http_status(ApiError::InvalidInput), 400);
    assert_eq!(http_status(ApiError::NotFound), 404);
    assert_eq!(http_status(ApiError::InternalFailure), 500);
}

use jsonwebtoken::{decode, encode, DecodingKey, EncodingKey, Header, Validation};
use session_engine::identity::{bearer_token, jwt_auth, AuthUser, Claims};

const SECRET: &str = "secret";

fn claims_value(sub: &str, exp: usize) -> serde_json::Value {
    let mut object = serde_json::Map::new();
    object.insert("sub".to_string(), serde_json::Value::String(sub.to_string()));
    object.insert("exp".to_string(), serde_json::Value::from(exp));
    serde_json::Value::Object(object)
}

fn create_test_token(user_id: uuid::Uuid) -> String {
    let exp = (chrono::Utc::now() + chrono::Duration::hours(1)).timestamp() as usize;
    let claims = claims_value(&user_id.to_string(), exp);
    encode(&Header::default(), &claims, &EncodingKey::from_secret(SECRET.as_bytes())).unwrap()
}

fn decoded_claims(token: &str) -> Option<Claims> {
    let data = decode::<serde_json::Value>(
        token,
        &DecodingKey::from_secret(SECRET.as_bytes()),
        &Validation::default(),
    )
    .ok()?;
    Some(Claims {
        sub: data.claims["sub"].as_str()?.to_string(),
        exp: data.claims["exp"].as_u64()? as usize,
    })
}

#[test]
fn test_create_valid_token() {
    let user_id = uuid::Uuid::new_v4();
    let token = create_test_token(user_id);

    // Verify the token can be decoded
    let token_data = decoded_claims(&token);

    assert!(token_data.is_some());
    let claims = token_data.unwrap();
    assert_eq!(claims.sub, user_id.to_string());
    assert_eq!(jwt_auth(&claims), Some(AuthUser(user_id.as_u128())));
}

#[test]
fn test_create_expired_token() {
    let user_id = uuid::Uuid::new_v4();
    let exp = (chrono::Utc::now() - chrono::Duration::hours(1)).timestamp() as usize; // Expired
    let claims = claims_value(&user_id.to_string(), exp);
    let token = encode(&Header::default(), &claims, &EncodingKey::from_secret(SECRET.as_bytes())).unwrap();

    // Verify the token is expired
    let token_data = decoded_claims(&token);

    assert!(token_data.is_none());
}

#[test]
fn test_invalid_token_format() {
    let token_data = decoded_claims("invalid.token.here");

    assert!(token_data.is_none());
}

#[test]
fn a_header_with_a_valid_token_names_its_user() {
    let user_id = uuid::Uuid::new_v4();
    let header = format!("Bearer {}", create_test_token(user_id));
    let token = bearer_token(&header).unwrap();
    let claims = decoded_claims(token).unwrap();
    assert_eq!(jwt_auth(&claims), Some(AuthUser(user_id.as_u128())));
}

#[test]
fn a_valid_token_for_something_else_than_a_user_names_nobody() {
    let exp = (chrono::Utc::now() + chrono::Duration::hours(1)).timestamp() as usize;
    let claims = claims_value("service-account", exp);
    let token = encode(&Header::default(), &claims, &EncodingKey::from_secret(SECRET.as_bytes())).unwrap();
    let claims = decoded_claims(&token).unwrap();
    assert_eq!(jwt_auth(&claims), None);
}

use r2logs::config::{var_or_missing, ApiEnv, UrlEnv};

#[test]
fn test_get_env_var_or_default() {
    let mut error_messages = Vec::<String>::new();
    let var_name = "TEST_VAR";
    let var_value = "test_value";
    let var = var_or_missing(var_name, None, &mut error_messages);
    assert_eq!(var, "");
    assert_eq!(error_messages.len(), 1);
    assert_eq!(error_messages[0], format!("{} is not set", var_name));

    let var = var_or_missing(var_name, Some(var_value.to_string()), &mut error_messages);
    assert_eq!(var, var_value);
    assert_eq!(error_messages.len(), 1);
}

#[test]
fn test_api_env_all_missing_enumerates_all() {
    let r = ApiEnv::from_values(None, None, None);
    let msg = r.err().expect("loading must fail with every variable missing");
    assert_eq!(
        msg,
        "CLOUDFLARE_API_KEY is not set\nR2_ACCESS_KEY_ID is not set\nR2_SECRET_ACCESS_KEY is not set"
    );
}

#[test]
fn test_url_env_all_missing_enumerates_all() {
    let r = UrlEnv::from_values(None, None);
    let msg = r.err().expect("loading must fail with every variable missing");
    assert_eq!(msg, "CLOUDFLARE_ACCOUNT_ID is not set\nBUCKET_NAME is not set");
}

#[test]
fn test_api_env_all_present_populates() {
    let r = ApiEnv::from_values(
        Some("key".to_string()),
        Some("access".to_string()),
        Some("secret".to_string()),
    );
    let env = r.ok().expect("loading must succeed with every variable set");
    assert_eq!(env.cf_api_key, "key");
    assert_eq!(env.r2_access_key_id, "access");
    assert_eq!(env.r2_secret_access_key, "secret");
}

#[test]
fn test_url_env_all_present_populates() {
    let r = UrlEnv::from_values(Some("acct".to_string()), Some("bkt".to_string()));
    let env = r.ok().expect("loading must succeed with every variable set");
    assert_eq!(env.cf_account_id, "acct");
    assert_eq!(env.bucket_name, "bkt");
}

#[test]
fn test_api_env_one_missing_names_only_it() {
    let r = ApiEnv::from_values(Some("key".to_string()), None, Some("secret".to_string()));
    let msg = r.err().expect("loading must fail with one variable missing");
    assert_eq!(msg, "R2_ACCESS_KEY_ID is not set");
}

#[test]
fn test_api_env_two_missing_keeps_order() {
    let r = ApiEnv::from_values(None, Some("access".to_string()), None);
    let msg = r.err().expect("loading must fail with two variables missing");
    assert_eq!(msg, "CLOUDFLARE_API_KEY is not set\nR2_SECRET_ACCESS_KEY is not set");
}

//! Credential and identifier loading.
//!
//! The process environment is read outside the library; each variable's
//! looked-up value arrives here as an `Option<String>`. Loading does not
//! stop at the first missing variable: every missing name is recorded as a
//! human-readable message, and the messages are joined by newlines into one
//! failure value.

use vstd::prelude::*;
use vstd::string::StringExecFns;

verus! {

/// Account id and bucket name used to build the endpoint URL.
pub struct UrlEnv {
    pub cf_account_id: String,
    pub bucket_name: String,
}

/// The three secrets sent as request headers.
pub struct ApiEnv {
    pub cf_api_key: String,
    pub r2_access_key_id: String,
    pub r2_secret_access_key: String,
}

/// The message recorded for one missing variable.
pub open spec fn missing_msg(name: Seq<char>) -> Seq<char> {
    name + " is not set"@
}

/// Messages after considering one variable: unchanged when the value is
/// present, extended by that variable's message when it is absent.
pub open spec fn noted_missing(
    msgs: Seq<Seq<char>>,
    name: Seq<char>,
    value: Option<String>,
) -> Seq<Seq<char>> {
    if value is None {
        msgs.push(missing_msg(name))
    } else {
        msgs
    }
}

/// The missing-variable messages collected while loading a `UrlEnv`,
/// in the order the variables are read.
pub open spec fn url_missing_msgs(
    cf_account_id: Option<String>,
    bucket_name: Option<String>,
) -> Seq<Seq<char>> {
    noted_missing(
        noted_missing(Seq::empty(), "CLOUDFLARE_ACCOUNT_ID"@, cf_account_id),
        "BUCKET_NAME"@,
        bucket_name,
    )
}

/// The missing-variable messages collected while loading an `ApiEnv`,
/// in the order the variables are read.
pub open spec fn api_missing_msgs(
    cf_api_key: Option<String>,
    r2_access_key_id: Option<String>,
    r2_secret_access_key: Option<String>,
) -> Seq<Seq<char>> {
    noted_missing(
        noted_missing(
            noted_missing(Seq::empty(), "CLOUDFLARE_API_KEY"@, cf_api_key),
            "R2_ACCESS_KEY_ID"@,
            r2_access_key_id,
        ),
        "R2_SECRET_ACCESS_KEY"@,
        r2_secret_access_key,
    )
}

/// With no variable set at all, loading collects one message for every
/// variable, in the order the variables are read: the failure enumerates
/// them all rather than stopping at the first.
pub proof fn lemma_all_missing_enumerated()
    ensures
        api_missing_msgs(None, None, None) == seq![
            missing_msg("CLOUDFLARE_API_KEY"@),
            missing_msg("R2_ACCESS_KEY_ID"@),
            missing_msg("R2_SECRET_ACCESS_KEY"@),
        ],
        url_missing_msgs(None, None) == seq![
            missing_msg("CLOUDFLARE_ACCOUNT_ID"@),
            missing_msg("BUCKET_NAME"@),
        ],
{
    assert(api_missing_msgs(None, None, None) =~= seq![
        missing_msg("CLOUDFLARE_API_KEY"@),
        missing_msg("R2_ACCESS_KEY_ID"@),
        missing_msg("R2_SECRET_ACCESS_KEY"@),
    ]);
    assert(url_missing_msgs(None, None) =~= seq![
        missing_msg("CLOUDFLARE_ACCOUNT_ID"@),
        missing_msg("BUCKET_NAME"@),
    ]);
}

/// The messages joined by single newlines, with no trailing newline.
pub open spec fn join_lines(msgs: Seq<Seq<char>>) -> Seq<char>
    decreases msgs.len(),
{
    if msgs.len() == 0 {
        Seq::empty()
    } else if msgs.len() == 1 {
        msgs[0]
    } else {
        join_lines(msgs.drop_last()) + "\n"@ + msgs.last()
    }
}

/// Returns the variable's value when present; otherwise records
/// "`name` is not set" and substitutes the empty string, so that loading
/// can go on and collect every missing variable.
pub fn var_or_missing(name: &str, value: Option<String>, errors: &mut Vec<String>) -> (r: String)
    ensures
        value matches Some(v) ==> r == v && final(errors)@ == old(errors)@,
        value is None ==> r@.len() == 0 && final(errors)@.len() == old(errors)@.len() + 1
            && final(errors).deep_view() == old(errors).deep_view().push(missing_msg(name@)),
{
    match value {
        Some(v) => v,
        None => {
            let msg = String::from_str(name).concat(" is not set");
            errors.push(msg);
            proof {
                assert(errors.deep_view() =~= old(errors).deep_view().push(missing_msg(name@)));
            }
            String::new()
        },
    }
}

/// Joins the collected messages with newlines: the failure value carries
/// every missing variable's message in one string.
pub fn join_with_newlines(msgs: &Vec<String>) -> (r: String)
    ensures
        r@ == join_lines(msgs.deep_view()),
{
    let mut result = String::new();
    let mut i: usize = 0;
    while i < msgs.len()
        invariant
            i <= msgs.len(),
            result@ == join_lines(msgs.deep_view().take(i as int)),
        decreases msgs.len() - i,
    {
        if i > 0 {
            result.append("\n");
        }
        result.append(msgs[i].as_str());
        proof {
            let all = msgs.deep_view();
            assert(all.take(i + 1).drop_last() =~= all.take(i as int));
            assert(all.take(i + 1).last() == all[i as int]);
            if i == 0 {
                assert(result@ =~= join_lines(all.take(1)));
            } else {
                assert(result@ =~= join_lines(all.take(i + 1)));
            }
        }
        i += 1;
    }
    proof {
        assert(msgs.deep_view().take(msgs.len() as int) =~= msgs.deep_view());
    }
    result
}

impl UrlEnv {
    /// Builds a `UrlEnv` from the looked-up values of `CLOUDFLARE_ACCOUNT_ID`
    /// and `BUCKET_NAME`. When any value is absent, every missing variable is
    /// reported in one newline-joined failure message.
    pub fn from_values(cf_account_id: Option<String>, bucket_name: Option<String>) -> (r: Result<
        UrlEnv,
        String,
    >)
        ensures
            r is Ok <==> cf_account_id is Some && bucket_name is Some,
            r matches Ok(env) ==> {
                &&& cf_account_id matches Some(a) && env.cf_account_id == a
                &&& bucket_name matches Some(b) && env.bucket_name == b
            },
            r matches Err(m) ==> m@ == join_lines(url_missing_msgs(cf_account_id, bucket_name)),
    {
        let mut error_messages: Vec<String> = Vec::new();

        proof {
            assert(error_messages.deep_view() =~= Seq::<Seq<char>>::empty());
        }
        let account_val = var_or_missing("CLOUDFLARE_ACCOUNT_ID", cf_account_id, &mut error_messages);
        let bucket_val = var_or_missing("BUCKET_NAME", bucket_name, &mut error_messages);
        proof {
            assert(error_messages.deep_view() =~= url_missing_msgs(cf_account_id, bucket_name));
            assert(error_messages.deep_view().len() == error_messages@.len());
        }

        if error_messages.len() > 0 {
            Err(join_with_newlines(&error_messages))
        } else {
            Ok(UrlEnv { cf_account_id: account_val, bucket_name: bucket_val })
        }
    }
}

impl ApiEnv {
    /// Builds an `ApiEnv` from the looked-up values of `CLOUDFLARE_API_KEY`,
    /// `R2_ACCESS_KEY_ID` and `R2_SECRET_ACCESS_KEY`. When any value is
    /// absent, every missing variable is reported in one newline-joined
    /// failure message.
    pub fn from_values(
        cf_api_key: Option<String>,
        r2_access_key_id: Option<String>,
        r2_secret_access_key: Option<String>,
    ) -> (r: Result<ApiEnv, String>)
        ensures
            r is Ok <==> cf_api_key is Some && r2_access_key_id is Some && r2_secret_access_key
                is Some,
            r matches Ok(env) ==> {
                &&& cf_api_key matches Some(k) && env.cf_api_key == k
                &&& r2_access_key_id matches Some(a) && env.r2_access_key_id == a
                &&& r2_secret_access_key matches Some(s) && env.r2_secret_access_key == s
            },
            r matches Err(m) ==> m@ == join_lines(
                api_missing_msgs(cf_api_key, r2_access_key_id, r2_secret_access_key),
            ),
    {
        let mut error_messages: Vec<String> = Vec::new();

        proof {
            assert(error_messages.deep_view() =~= Seq::<Seq<char>>::empty());
        }
        let key_val = var_or_missing("CLOUDFLARE_API_KEY", cf_api_key, &mut error_messages);
        let access_val = var_or_missing("R2_ACCESS_KEY_ID", r2_access_key_id, &mut error_messages);
        let secret_val = var_or_missing(
            "R2_SECRET_ACCESS_KEY",
            r2_secret_access_key,
            &mut error_messages,
        );
        proof {
            assert(error_messages.deep_view() =~= api_missing_msgs(
                cf_api_key,
                r2_access_key_id,
                r2_secret_access_key,
            ));
            assert(error_messages.deep_view().len() == error_messages@.len());
        }

        if error_messages.len() > 0 {
            Err(join_with_newlines(&error_messages))
        } else {
            Ok(ApiEnv {
                cf_api_key: key_val,
                r2_access_key_id: access_val,
                r2_secret_access_key: secret_val,
            })
        }
    }
}

} // verus!

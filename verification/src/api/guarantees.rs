//! What holds of issuing and checking, whatever the inputs.
//!
//! Each statement here relates the specifications of `auth` to one another:
//! what is issued validates, expiry is decided at the second, faults are
//! found in a fixed order, and the scheme of a header may be written in any
//! case.

use crate::api::auth::{
    authorization, context_of, granted_claims, has_bearer_prefix, header_token, issued_claims,
    lemma_claim_names_differ, to_ascii_lower, validated, ContextView,
};
use crate::decimal::{decimal_text, lemma_i64_round_trip, parse_i64_text};
use crate::error::InputFault;
use crate::gateway::Effect;
use vstd::prelude::*;

verus! {

/// The claims of an issuance name the user and the application it was made
/// for, and hold five names: `user_id`, `app_id`, `expires_at`,
/// `session_id` and `token_id`.
pub proof fn lemma_issued_claims_carry_identity(
    context: ContextView,
    now: int,
    ttl: int,
    session_id: Seq<char>,
    token_id: Seq<char>,
)
    ensures
        ({
            let claims = issued_claims(context, now, ttl, session_id, token_id);
            &&& claims["user_id"@] == context.user.user_id
            &&& claims["app_id"@] == context.app_id
            &&& claims["expires_at"@] == decimal_text(now + ttl)
            &&& claims["session_id"@] == session_id
            &&& claims["token_id"@] == token_id
            &&& claims.dom() =~= set![
                "user_id"@,
                "app_id"@,
                "expires_at"@,
                "session_id"@,
                "token_id"@,
            ]
        }),
{
    lemma_claim_names_differ();
}

/// Two issuances to the same identity agree on `user_id` and `app_id`,
/// whenever they are made and whatever identifiers they draw.
pub proof fn lemma_issuances_agree_on_identity(
    context: ContextView,
    now: int,
    ttl: int,
    session_id: Seq<char>,
    token_id: Seq<char>,
    other_now: int,
    other_ttl: int,
    other_session_id: Seq<char>,
    other_token_id: Seq<char>,
)
    ensures
        ({
            let one = issued_claims(context, now, ttl, session_id, token_id);
            let other = issued_claims(
                context,
                other_now,
                other_ttl,
                other_session_id,
                other_token_id,
            );
            &&& one["user_id"@] == other["user_id"@]
            &&& one["app_id"@] == other["app_id"@]
        }),
{
    lemma_issued_claims_carry_identity(context, now, ttl, session_id, token_id);
    lemma_issued_claims_carry_identity(
        context,
        other_now,
        other_ttl,
        other_session_id,
        other_token_id,
    );
}

/// What is issued validates: until it expires, the claims of an issuance
/// validate to the user and application they were issued to; after that
/// they are refused as expired. The expiry has to fit in 64 bits.
pub proof fn lemma_issued_claims_validate(
    context: ContextView,
    now: i64,
    ttl: i64,
    session_id: Seq<char>,
    token_id: Seq<char>,
    later: i64,
)
    requires
        i64::MIN <= now + ttl <= i64::MAX,
    ensures
        ({
            let claims = issued_claims(context, now as int, ttl as int, session_id, token_id);
            if later <= now + ttl {
                validated(claims, later as int) == Ok::<ContextView, InputFault>(
                    context_of(context.user.user_id, context.app_id),
                )
            } else {
                validated(claims, later as int) == Err::<ContextView, InputFault>(
                    InputFault::ExpiredToken,
                )
            }
        }),
{
    lemma_issued_claims_carry_identity(context, now as int, ttl as int, session_id, token_id);
    lemma_i64_round_trip((now + ttl) as i64);
}

/// Expiry is decided at the second. Claims that name a user and an
/// application and expire at `expires_at` are accepted at every time up to
/// and including `expires_at`, and refused as expired at every later time.
pub proof fn lemma_expiry_decides(claims: Map<Seq<char>, Seq<char>>, expires_at: i64, now: i64)
    requires
        claims.contains_key("user_id"@),
        claims.contains_key("app_id"@),
        claims.contains_key("expires_at"@),
        parse_i64_text(claims["expires_at"@]) == Some(expires_at),
    ensures
        now <= expires_at ==> validated(claims, now as int) == Ok::<ContextView, InputFault>(
            context_of(claims["user_id"@], claims["app_id"@]),
        ),
        now > expires_at ==> validated(claims, now as int) == Err::<ContextView, InputFault>(
            InputFault::ExpiredToken,
        ),
{
}

/// The same, for an expiry written as decimal text: such a text is read
/// back as the number it was written from.
pub proof fn lemma_written_expiry_decides(
    claims: Map<Seq<char>, Seq<char>>,
    expires_at: i64,
    now: i64,
)
    requires
        claims.contains_key("user_id"@),
        claims.contains_key("app_id"@),
        claims.contains_key("expires_at"@),
        claims["expires_at"@] == decimal_text(expires_at as int),
    ensures
        now <= expires_at ==> validated(claims, now as int) is Ok,
        now > expires_at ==> validated(claims, now as int) == Err::<ContextView, InputFault>(
            InputFault::ExpiredToken,
        ),
{
    lemma_i64_round_trip(expires_at);
    lemma_expiry_decides(claims, expires_at, now);
}

/// A missing claim is reported by its name, and the first one missing in
/// the order `user_id`, `app_id`, `expires_at` is the one reported, whatever
/// the time and whatever else the claims hold.
pub proof fn lemma_missing_field(claims: Map<Seq<char>, Seq<char>>, now: int)
    ensures
        !claims.contains_key("user_id"@) ==> validated(claims, now) == Err::<
            ContextView,
            InputFault,
        >(InputFault::MissingField("user_id"@)),
        claims.contains_key("user_id"@) && !claims.contains_key("app_id"@) ==> validated(
            claims,
            now,
        ) == Err::<ContextView, InputFault>(InputFault::MissingField("app_id"@)),
        claims.contains_key("user_id"@) && claims.contains_key("app_id"@) && !claims.contains_key(
            "expires_at"@,
        ) ==> validated(claims, now) == Err::<ContextView, InputFault>(
            InputFault::MissingField("expires_at"@),
        ),
{
}

/// An expiry that is no 64-bit integer is reported as unparsable, whatever
/// the time.
pub proof fn lemma_unparsable_expiry(claims: Map<Seq<char>, Seq<char>>, now: int)
    requires
        claims.contains_key("user_id"@),
        claims.contains_key("app_id"@),
        claims.contains_key("expires_at"@),
        parse_i64_text(claims["expires_at"@]) is None,
    ensures
        validated(claims, now) == Err::<ContextView, InputFault>(
            InputFault::ParsingError("expires_at"@),
        ),
{
}

/// Claims that validate hold `user_id`, `app_id` and `expires_at`, and the
/// grant made from them holds the first two and nothing else.
pub proof fn lemma_accepted_claims(claims: Map<Seq<char>, Seq<char>>, now: int)
    requires
        validated(claims, now) is Ok,
    ensures
        claims.contains_key("user_id"@),
        claims.contains_key("app_id"@),
        claims.contains_key("expires_at"@),
        authorization(claims, now) matches Ok(decision) && decision.effect == Effect::Allow
            && decision.principal_id == "user"@ && decision.context.dom() =~= set![
            "user_id"@,
            "app_id"@,
        ] && decision.context["user_id"@] == claims["user_id"@] && decision.context["app_id"@]
            == claims["app_id"@],
{
    lemma_claim_names_differ();
    let context = validated(claims, now)->Ok_0;
    assert(granted_claims(context).dom() =~= set!["user_id"@, "app_id"@]);
}

/// The scheme of a header may be written in any case: a header made of the
/// word `bearer` in whatever case, one space and a token holds that token.
pub proof fn lemma_bearer_in_any_case(scheme: Seq<char>, token: Seq<char>)
    requires
        scheme.len() == 7,
        forall|i: int| 0 <= i < 7 ==> to_ascii_lower(#[trigger] scheme[i]) == "bearer "@[i],
    ensures
        header_token(Some(scheme + token)) == Ok::<Seq<char>, InputFault>(token),
{
    reveal_strlit("bearer ");
    let header = scheme + token;
    assert forall|i: int| 0 <= i < 7 implies to_ascii_lower(#[trigger] header[i]) == "bearer "@[i] by {
        assert(header[i] == scheme[i]);
    }
    assert(header.skip(7) =~= token);
}

/// A request without a header is refused as such, and a header that does not
/// begin with the bearer scheme is refused as invalid.
pub proof fn lemma_header_refused(header: Seq<char>)
    ensures
        header_token(None) == Err::<Seq<char>, InputFault>(
            InputFault::MissingHeader("authorization"@),
        ),
        !has_bearer_prefix(header) ==> header_token(Some(header)) == Err::<Seq<char>, InputFault>(
            InputFault::InvalidHeader { name: "authorization"@ },
        ),
{
}

} // verus!

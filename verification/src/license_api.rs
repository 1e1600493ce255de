//! Dealing with the licence service: what is asked of it, what its replies
//! decide, and what is kept afterwards. Requests and files are left to the
//! program around it.
use vstd::prelude::*;
use crate::decimal::{digits, parse_of_digits, parse_u64, parse_u64_seq};
use crate::license::{
    allows_pro, copy_opt, deactivation_error_allows_local_clear, denied_status,
    license_status_allows_pro, license_status_label, normalized_denied_status, opt_text,
    says_already_gone, status_from_authoritative_error, status_in_message, status_label,
    stored_state, ErrorModel, LicenseError, LicenseErrorKind, LicenseModel, LicenseState,
    LicenseTier, StoredLicense, FASTPLAY_PRO_PRODUCT_ID,
};
use crate::text::{is_blank, owned, trim, trim_seq};

verus! {

/// What a JSON value is, as far as a product number goes.
#[derive(Clone, Debug, PartialEq, Eq)]
pub enum JsonScalar {
    /// A whole number that fits.
    Unsigned(u64),
    /// Any other number.
    OtherNumber,
    /// A string.
    Text(String),
    /// Anything else.
    Other,
}

/// The model of such a value.
pub enum ScalarModel {
    Unsigned(u64),
    OtherNumber,
    Text(Seq<char>),
    Other,
}

impl View for JsonScalar {
    type V = ScalarModel;

    open spec fn view(&self) -> ScalarModel {
        match self {
            JsonScalar::Unsigned(n) => ScalarModel::Unsigned(*n),
            JsonScalar::OtherNumber => ScalarModel::OtherNumber,
            JsonScalar::Text(s) => ScalarModel::Text(s@),
            JsonScalar::Other => ScalarModel::Other,
        }
    }
}

/// The model of a value that may not be one.
pub open spec fn scalar_view(s: Option<JsonScalar>) -> Option<ScalarModel> {
    match s {
        Some(v) => Some(v@),
        None => None,
    }
}

/// Whether a text stands in JSON as it is: no quote, no backslash and no
/// control character.
pub open spec fn is_plain_json(s: Seq<char>) -> bool {
    forall|k: int| 0 <= k < s.len() ==> s[k] != '"' && s[k] != '\\' && #[trigger] s[k] > '\u{1f}'
}

/// A text in quotes.
pub open spec fn quoted(s: Seq<char>) -> Seq<char> {
    seq!['"'] + s + seq!['"']
}

/// What `serde_json::from_str` makes of a text: the kind of the value that the
/// text is; `None` if it is not one JSON value.
pub uninterp spec fn json_scalar(text: Seq<char>) -> Option<ScalarModel>;

/// `serde_json::from_str::<serde_json::Value>` parses a text as one JSON value,
/// and `Number::as_u64` gives the value of a whole number that fits. What it
/// makes of a text has a name; beyond that, the shortest decimal form of a `u64`
/// is read as that number, and a quoted text without escapes as that text.
#[verifier::external_body]
fn parse_json_scalar(text: &str) -> (r: Option<JsonScalar>)
    ensures
        scalar_view(r) == json_scalar(text@),
        forall|n: u64| text@ == #[trigger] digits(n as nat) ==> r == Some(JsonScalar::Unsigned(n)),
        text@.len() >= 2 && text@[0] == '"' && text@.last() == '"' && is_plain_json(
            text@.subrange(1, text@.len() - 1),
        ) ==> scalar_view(r) == Some(
            ScalarModel::Text(text@.subrange(1, text@.len() - 1)),
        ),
{
    match serde_json::from_str::<serde_json::Value>(text) {
        Ok(serde_json::Value::Number(n)) => match n.as_u64() {
            Some(v) => Some(JsonScalar::Unsigned(v)),
            None => Some(JsonScalar::OtherNumber),
        },
        Ok(serde_json::Value::String(s)) => Some(JsonScalar::Text(s)),
        Ok(_) => Some(JsonScalar::Other),
        Err(_) => None,
    }
}

/// The product number that a value gives: a number, or its decimal digits.
pub open spec fn product_number(scalar: Option<ScalarModel>) -> Option<u64> {
    match scalar {
        Some(ScalarModel::Unsigned(n)) => Some(n),
        Some(ScalarModel::Text(s)) => parse_u64_seq(s),
        _ => None,
    }
}

/// The product number that a value gives.
pub fn product_number_of(scalar: &Option<JsonScalar>) -> (r: Option<u64>)
    ensures
        r == product_number(scalar_view(*scalar)),
{
    match scalar {
        Some(JsonScalar::Unsigned(n)) => Some(*n),
        Some(JsonScalar::Text(s)) => parse_u64(s.as_str()),
        _ => None,
    }
}

/// What a reply says beside the decision. The product number is kept as the
/// JSON text in which it came.
#[derive(Clone, Debug, PartialEq, Eq)]
pub struct ApiMeta {
    pub product_id: Option<String>,
    pub customer_email: Option<String>,
}

impl ApiMeta {
    /// The product number in its JSON text.
    pub open spec fn product(self) -> Option<u64> {
        match self.product_id {
            Some(text) => product_number(json_scalar(text@)),
            None => None,
        }
    }

    /// The product number, if the reply gives one: as a number or as a string
    /// of its digits.
    pub fn product_id_u64(&self) -> (r: Option<u64>)
        ensures
            r == self.product(),
            forall|n: u64|
                opt_text(self.product_id) == Some(#[trigger] digits(n as nat)) ==> r == Some(n),
            forall|n: u64|
                opt_text(self.product_id) == Some(quoted(#[trigger] digits(n as nat))) ==> r
                    == Some(n),
    {
        match &self.product_id {
            Some(text) => {
                let scalar = parse_json_scalar(text.as_str());
                let r = product_number_of(&scalar);
                proof {
                    assert forall|n: u64| text@ == quoted(#[trigger] digits(n as nat)) implies r
                        == Some(n) by {
                        let d = digits(n as nat);
                        crate::decimal::digits_shape(n as nat);
                        parse_of_digits(n);
                        assert(text@.subrange(1, text@.len() - 1) =~= d);
                        assert forall|k: int| 0 <= k < d.len() implies d[k] != '"' && d[k] != '\\'
                            && #[trigger] d[k] > '\u{1f}' by {
                            assert(crate::decimal::is_digit(d[k]));
                        }
                    }
                }
                r
            },
            None => None,
        }
    }
}

/// The licence key in a reply.
#[derive(Clone, Debug, PartialEq, Eq)]
pub struct ApiLicenseKey {
    pub status: String,
}

/// The instance in a reply.
#[derive(Clone, Debug, PartialEq, Eq)]
pub struct ApiInstance {
    pub id: String,
}

/// A reply of the licence service.
#[derive(Clone, Debug, PartialEq, Eq)]
pub struct LicenseApiResponse {
    pub activated: Option<bool>,
    pub valid: Option<bool>,
    pub deactivated: Option<bool>,
    pub error: Option<String>,
    pub license_key: Option<ApiLicenseKey>,
    pub instance: Option<ApiInstance>,
    pub meta: Option<ApiMeta>,
}

impl LicenseApiResponse {
    /// The product of the reply.
    pub open spec fn product(self) -> Option<u64> {
        match self.meta {
            Some(meta) => meta.product(),
            None => None,
        }
    }

    /// The status of the reply, or else another one.
    pub open spec fn status_or(self, other: Seq<char>) -> Seq<char> {
        match self.license_key {
            Some(key) => key.status@,
            None => other,
        }
    }

    /// The address of the reply.
    pub open spec fn email(self) -> Option<Seq<char>> {
        match self.meta {
            Some(meta) => opt_text(meta.customer_email),
            None => None,
        }
    }

    /// The instance of the reply, without white space at its ends; blank if
    /// there is none.
    pub open spec fn instance_text(self) -> Seq<char> {
        match self.instance {
            Some(instance) => trim_seq(instance.id@),
            None => Seq::empty(),
        }
    }

    /// The error of the reply, or else another text.
    pub open spec fn error_or(self, other: Seq<char>) -> Seq<char> {
        match self.error {
            Some(error) => error@,
            None => other,
        }
    }

    fn product_id(&self) -> (r: Option<u64>)
        ensures
            r == self.product(),
    {
        match &self.meta {
            Some(meta) => meta.product_id_u64(),
            None => None,
        }
    }

    fn status(&self, other: &str) -> (r: String)
        ensures
            r@ == self.status_or(other@),
    {
        match &self.license_key {
            Some(key) => key.status.clone(),
            None => owned(other),
        }
    }

    fn customer_email(&self) -> (r: Option<String>)
        ensures
            opt_text(r) == self.email(),
    {
        match &self.meta {
            Some(meta) => copy_opt(&meta.customer_email),
            None => None,
        }
    }

    fn error(&self, other: &str) -> (r: String)
        ensures
            r@ == self.error_or(other@),
    {
        match &self.error {
            Some(error) => error.clone(),
            None => owned(other),
        }
    }
}

/// The error for a reply with an HTTP status of failure: a fault of the server
/// may go away, anything else is a decision.
pub fn server_error(status: u16, body_error: Option<&str>) -> (r: LicenseError)
    ensures
        r@ == (ErrorModel {
            kind: if status >= 500 {
                LicenseErrorKind::Transient
            } else {
                LicenseErrorKind::Authoritative
            },
            message: match body_error {
                Some(text) => text@,
                None => "License server returned an error"@,
            },
        }),
{
    let message: &str = match body_error {
        Some(text) => text,
        None => "License server returned an error",
    };
    if status >= 500 {
        LicenseError::transient(message)
    } else {
        LicenseError::authoritative(message)
    }
}

/// One text behind another.
fn concat(a: &str, b: &str) -> (r: String)
    ensures
        r@ == a@ + b@,
{
    let mut out = owned(a);
    out.append(b);
    out
}

/// The error for a server that cannot be reached.
pub fn transport_error(error: &str) -> (r: LicenseError)
    ensures
        r@ == (ErrorModel {
            kind: LicenseErrorKind::Transient,
            message: "Could not reach license server: "@ + error@,
        }),
{
    let text = concat("Could not reach license server: ", error);
    LicenseError::transient(text.as_str())
}

/// The error for a reply that cannot be read.
pub fn unreadable_reply(error: &str) -> (r: LicenseError)
    ensures
        r@ == (ErrorModel {
            kind: LicenseErrorKind::Transient,
            message: "Could not parse license response: "@ + error@,
        }),
{
    let text = concat("Could not parse license response: ", error);
    LicenseError::transient(text.as_str())
}

/// The name under which this computer is activated.
pub fn instance_name(computer: Option<&str>) -> (r: String)
    ensures
        r@ == "FastPlay on "@ + (match computer {
            Some(name) => if trim_seq(name@).len() > 0 {
                name@
            } else {
                "Windows"@
            },
            None => "Windows"@,
        }),
{
    match computer {
        Some(name) => {
            if is_blank(name) {
                concat("FastPlay on ", "Windows")
            } else {
                concat("FastPlay on ", name)
            }
        },
        None => concat("FastPlay on ", "Windows"),
    }
}

/// The error for an operation that a newer one has overtaken.
pub open spec fn superseded_error() -> ErrorModel {
    ErrorModel {
        kind: LicenseErrorKind::Transient,
        message: "License operation was superseded"@,
    }
}

fn superseded() -> (r: LicenseError)
    ensures
        r@ == superseded_error(),
{
    LicenseError::transient("License operation was superseded")
}

/// What an activation leads to.
#[derive(Clone, Debug, PartialEq, Eq)]
pub enum ActivationStep {
    /// It failed.
    Fail(LicenseError),
    /// It failed, and the instance that it made is to be deactivated.
    DeactivateAndFail { instance_id: String, error: LicenseError },
    /// Store this licence.
    Save(StoredLicense),
}

/// The licence key that is sent: without white space at its ends; an error if
/// nothing is left.
pub fn license_key_to_send(license_key: &str) -> (r: Result<String, LicenseError>)
    ensures
        match r {
            Ok(key) => trim_seq(license_key@).len() > 0 && key@ == trim_seq(license_key@),
            Err(error) => trim_seq(license_key@).len() == 0 && error@ == (ErrorModel {
                kind: LicenseErrorKind::Local,
                message: "License key required"@,
            }),
        },
{
    let key = trim(license_key);
    if key.as_str().unicode_len() == 0 {
        return Err(LicenseError::local("License key required"));
    }
    Ok(key)
}

/// An address without white space at its ends; none if nothing is left.
pub open spec fn trimmed_email(email: Option<Seq<char>>) -> Option<Seq<char>> {
    match email {
        Some(e) => if trim_seq(e).len() > 0 {
            Some(trim_seq(e))
        } else {
            None
        },
        None => None,
    }
}

fn trim_email(email: &Option<String>) -> (r: Option<String>)
    ensures
        opt_text(r) == trimmed_email(opt_text(*email)),
{
    match email {
        Some(e) => {
            let t = trim(e.as_str());
            if t.as_str().unicode_len() == 0 {
                None
            } else {
                Some(t)
            }
        },
        None => None,
    }
}

/// The licence that a successful activation stores.
pub open spec fn activated_license(
    license_key: Seq<char>,
    response: LicenseApiResponse,
    now_ms: u64,
) -> LicenseModel {
    LicenseModel {
        license_key,
        instance_id: response.instance_text(),
        product_id: FASTPLAY_PRO_PRODUCT_ID,
        license_status: response.status_or("active"@),
        customer_email: trimmed_email(response.email()),
        last_validated_unix_ms: now_ms,
    }
}

/// Whether the reply to an activation leads to this step.
pub open spec fn activation_leads_to(
    license_key: Seq<char>,
    response: LicenseApiResponse,
    is_current: bool,
    now_ms: u64,
    step: ActivationStep,
) -> bool {
    let instance = response.instance_text();
    let status = response.status_or("active"@);
    if response.activated != Some(true) {
        step matches ActivationStep::Fail(error) && error@ == (ErrorModel {
            kind: LicenseErrorKind::Authoritative,
            message: response.error_or("License activation failed"@),
        })
    } else if instance.len() == 0 {
        step matches ActivationStep::Fail(error) && error@ == (ErrorModel {
            kind: LicenseErrorKind::Transient,
            message: "Activation response did not include an instance id"@,
        })
    } else if response.product() != Some(FASTPLAY_PRO_PRODUCT_ID) {
        step matches ActivationStep::DeactivateAndFail { instance_id, error } && instance_id@
            == instance && error@ == (ErrorModel {
            kind: LicenseErrorKind::Authoritative,
            message: "That license is not for FastPlay Pro"@,
        })
    } else if !allows_pro(status) {
        step matches ActivationStep::DeactivateAndFail { instance_id, error } && instance_id@
            == instance && error@ == (ErrorModel {
            kind: LicenseErrorKind::Authoritative,
            message: "License is "@ + status_label(status),
        })
    } else if !is_current {
        step matches ActivationStep::DeactivateAndFail { instance_id, error } && instance_id@
            == instance && error@ == superseded_error()
    } else {
        step matches ActivationStep::Save(stored) && stored@ == activated_license(
            license_key,
            response,
            now_ms,
        )
    }
}

/// Decides what the reply to an activation that nothing can overtake leads to.
pub fn activate_license_key(license_key: &str, response: &LicenseApiResponse, now_ms: u64) -> (r:
    ActivationStep)
    ensures
        activation_leads_to(license_key@, *response, true, now_ms, r),
{
    activate_license_key_if_current(license_key, response, true, now_ms)
}

/// Decides what the reply to an activation leads to. An activation for another
/// product, with a status that does not allow the paid tier, or that a newer
/// operation has overtaken, is undone.
pub fn activate_license_key_if_current(
    license_key: &str,
    response: &LicenseApiResponse,
    is_current: bool,
    now_ms: u64,
) -> (r: ActivationStep)
    ensures
        activation_leads_to(license_key@, *response, is_current, now_ms, r),
{
    let activated = match response.activated {
        Some(done) => done,
        None => false,
    };
    if !activated {
        let message = response.error("License activation failed");
        return ActivationStep::Fail(LicenseError::authoritative(message.as_str()));
    }
    let instance_id: String = match &response.instance {
        Some(instance) => trim(instance.id.as_str()),
        None => String::new(),
    };
    proof {
        assert(instance_id@ =~= response.instance_text());
    }
    if instance_id.as_str().unicode_len() == 0 {
        return ActivationStep::Fail(
            LicenseError::transient("Activation response did not include an instance id"),
        );
    }
    let right_product = match response.product_id() {
        Some(id) => id == FASTPLAY_PRO_PRODUCT_ID,
        None => false,
    };
    if !right_product {
        return ActivationStep::DeactivateAndFail {
            instance_id,
            error: LicenseError::authoritative("That license is not for FastPlay Pro"),
        };
    }
    let license_status = response.status("active");
    if !license_status_allows_pro(license_status.as_str()) {
        let label = license_status_label(license_status.as_str());
        let message = concat("License is ", label.as_str());
        return ActivationStep::DeactivateAndFail {
            instance_id,
            error: LicenseError::authoritative(message.as_str()),
        };
    }
    if !is_current {
        return ActivationStep::DeactivateAndFail { instance_id, error: superseded() };
    }
    ActivationStep::Save(
        StoredLicense {
            license_key: owned(license_key),
            instance_id,
            product_id: FASTPLAY_PRO_PRODUCT_ID,
            license_status,
            customer_email: trim_email(&response.customer_email()),
            last_validated_unix_ms: now_ms,
        },
    )
}

/// What an activation gives the user.
#[derive(Clone, Debug, PartialEq, Eq)]
pub struct LicenseActivationResult {
    pub state: LicenseState,
    pub customer_email: Option<String>,
}

/// After an attempt to store an activated licence.
pub fn activation_saved(stored: &StoredLicense, saved: Result<(), String>, now_ms: u64) -> (r:
    Result<LicenseActivationResult, LicenseError>)
    ensures
        match (saved, r) {
            (Ok(_), Ok(result)) => result.state@ == stored_state(stored@, now_ms) && opt_text(
                result.customer_email,
            ) == stored@.customer_email,
            (Err(text), Err(error)) => error@ == (ErrorModel {
                kind: LicenseErrorKind::Local,
                message: "Activated, but could not save license: "@ + text@,
            }),
            _ => false,
        },
{
    match saved {
        Ok(_) => Ok(
            LicenseActivationResult {
                state: LicenseState::from_stored_license(stored, now_ms),
                customer_email: copy_opt(&stored.customer_email),
            },
        ),
        Err(text) => {
            let message = concat("Activated, but could not save license: ", text.as_str());
            Err(LicenseError::local(message.as_str()))
        },
    }
}

/// The stored licence that an operation works on, given what reading it gave.
pub fn license_to_use(
    loaded: Result<Option<StoredLicense>, String>,
    deactivating: bool,
) -> (r: Result<StoredLicense, LicenseError>)
    ensures
        match loaded {
            Ok(Some(stored)) => r matches Ok(l) && l@ == stored@,
            Ok(None) => r matches Err(error) && error@ == (ErrorModel {
                kind: LicenseErrorKind::Local,
                message: if deactivating {
                    "No saved license to deactivate"@
                } else {
                    "No saved license"@
                },
            }),
            Err(text) => r matches Err(error) && error@ == (ErrorModel {
                kind: LicenseErrorKind::Local,
                message: "Could not read saved license: "@ + text@,
            }),
        },
{
    match loaded {
        Ok(Some(stored)) => Ok(stored),
        Ok(None) => if deactivating {
            Err(LicenseError::local("No saved license to deactivate"))
        } else {
            Err(LicenseError::local("No saved license"))
        },
        Err(text) => {
            let message = concat("Could not read saved license: ", text.as_str());
            Err(LicenseError::local(message.as_str()))
        },
    }
}

/// A stored licence after it was denied.
pub open spec fn denied(
    l: LicenseModel,
    status: Seq<char>,
    email: Option<Seq<char>>,
    now_ms: u64,
) -> LicenseModel {
    LicenseModel {
        license_status: denied_status(status),
        customer_email: match email {
            Some(e) => Some(e),
            None => l.customer_email,
        },
        last_validated_unix_ms: now_ms,
        ..l
    }
}

/// A stored licence after it was denied.
pub fn denied_stored_license(
    stored: StoredLicense,
    status: &str,
    customer_email: Option<String>,
    now_ms: u64,
) -> (r: StoredLicense)
    ensures
        r@ == denied(stored@, status@, opt_text(customer_email), now_ms),
{
    let customer_email = match customer_email {
        Some(e) => Some(e),
        None => stored.customer_email,
    };
    StoredLicense {
        license_key: stored.license_key,
        instance_id: stored.instance_id,
        product_id: stored.product_id,
        license_status: normalized_denied_status(status),
        customer_email,
        last_validated_unix_ms: now_ms,
    }
}

/// What a validation leads to.
#[derive(Clone, Debug, PartialEq, Eq)]
pub enum ValidationStep {
    /// It failed, and what is stored stays.
    Fail(LicenseError),
    /// Store this licence, which the service has denied with this status.
    SaveDenied { license: StoredLicense, status: String },
    /// Store this licence, which the service has confirmed.
    SaveValid(StoredLicense),
}

/// What the reply to a validation decides.
pub enum ValidationModel {
    Fail(ErrorModel),
    Denied { status: Seq<char>, email: Option<Seq<char>> },
    Valid { status: Seq<char>, email: Option<Seq<char>> },
}

/// What the reply to a validation decides. A reply that leaves the question open
/// decides nothing; a decision against the licence names a status.
pub open spec fn validation_verdict(
    stored: LicenseModel,
    reply: Result<LicenseApiResponse, LicenseError>,
) -> ValidationModel {
    match reply {
        Err(error) => if error@.kind == LicenseErrorKind::Authoritative {
            ValidationModel::Denied { status: status_in_message(error@.message), email: None }
        } else {
            ValidationModel::Fail(error@)
        },
        Ok(response) => if response.valid == Some(false) {
            ValidationModel::Denied {
                status: response.status_or("invalid"@),
                email: response.email(),
            }
        } else if response.valid is None {
            ValidationModel::Fail(
                ErrorModel {
                    kind: LicenseErrorKind::Transient,
                    message: response.error_or("License validation response was incomplete"@),
                },
            )
        } else {
            match response.product() {
                None => ValidationModel::Fail(
                    ErrorModel {
                        kind: LicenseErrorKind::Transient,
                        message: "License validation response did not include a product id"@,
                    },
                ),
                Some(product) => if product != FASTPLAY_PRO_PRODUCT_ID {
                    ValidationModel::Denied {
                        status: response.status_or("wrong_product"@),
                        email: response.email(),
                    }
                } else if !allows_pro(response.status_or(stored.license_status)) {
                    ValidationModel::Denied {
                        status: response.status_or(stored.license_status),
                        email: response.email(),
                    }
                } else {
                    ValidationModel::Valid {
                        status: response.status_or(stored.license_status),
                        email: match response.email() {
                            Some(e) => Some(e),
                            None => stored.customer_email,
                        },
                    }
                },
            }
        },
    }
}

fn deny(
    stored: StoredLicense,
    status: String,
    customer_email: Option<String>,
    is_current: bool,
    now_ms: u64,
) -> (r: ValidationStep)
    ensures
        if !is_current {
            r matches ValidationStep::Fail(error) && error@ == superseded_error()
        } else {
            r matches ValidationStep::SaveDenied { license, status: told } && license@ == denied(
                stored@,
                status@,
                opt_text(customer_email),
                now_ms,
            ) && told@ == status@
        },
{
    if !is_current {
        return ValidationStep::Fail(superseded());
    }
    let license = denied_stored_license(stored, status.as_str(), customer_email, now_ms);
    ValidationStep::SaveDenied { license, status }
}

/// Whether the reply to a validation leads to this step.
pub open spec fn validation_leads_to(
    stored: LicenseModel,
    reply: Result<LicenseApiResponse, LicenseError>,
    is_current: bool,
    now_ms: u64,
    step: ValidationStep,
) -> bool {
    match validation_verdict(stored, reply) {
        ValidationModel::Fail(error) => step matches ValidationStep::Fail(e) && e@ == error,
        ValidationModel::Denied { status, email } => if !is_current {
            step matches ValidationStep::Fail(e) && e@ == superseded_error()
        } else {
            step matches ValidationStep::SaveDenied { license, status: told } && license@
                == denied(stored, status, email, now_ms) && told@ == status
        },
        ValidationModel::Valid { status, email } => if !is_current {
            step matches ValidationStep::Fail(e) && e@ == superseded_error()
        } else {
            step matches ValidationStep::SaveValid(license) && license@ == (LicenseModel {
                license_status: status,
                customer_email: email,
                last_validated_unix_ms: now_ms,
                ..stored
            })
        },
    }
}

/// Decides what the reply to a validation that nothing can overtake leads to.
pub fn validate_stored_license(
    stored: StoredLicense,
    reply: Result<LicenseApiResponse, LicenseError>,
    now_ms: u64,
) -> (r: ValidationStep)
    ensures
        validation_leads_to(stored@, reply, true, now_ms, r),
{
    validate_stored_license_if_current(stored, reply, true, now_ms)
}

/// Decides what the reply to a validation leads to. Nothing is stored once a
/// newer operation has overtaken this one.
pub fn validate_stored_license_if_current(
    stored: StoredLicense,
    reply: Result<LicenseApiResponse, LicenseError>,
    is_current: bool,
    now_ms: u64,
) -> (r: ValidationStep)
    ensures
        validation_leads_to(stored@, reply, is_current, now_ms, r),
{
    let response = match reply {
        Ok(response) => response,
        Err(error) => match error.kind {
            LicenseErrorKind::Authoritative => {
                let status = status_from_authoritative_error(error.message.as_str());
                return deny(stored, status, None, is_current, now_ms);
            },
            _ => {
                return ValidationStep::Fail(error);
            },
        },
    };
    match response.valid {
        Some(valid) => {
            if !valid {
                let status = response.status("invalid");
                let email = response.customer_email();
                return deny(stored, status, email, is_current, now_ms);
            }
        },
        None => {
            let message = response.error("License validation response was incomplete");
            return ValidationStep::Fail(LicenseError::transient(message.as_str()));
        },
    }
    match response.product_id() {
        Some(product) => {
            if product != FASTPLAY_PRO_PRODUCT_ID {
                let status = response.status("wrong_product");
                let email = response.customer_email();
                return deny(stored, status, email, is_current, now_ms);
            }
        },
        None => {
            return ValidationStep::Fail(
                LicenseError::transient("License validation response did not include a product id"),
            );
        },
    }
    let license_status = response.status(stored.license_status.as_str());
    let email = response.customer_email();
    if !license_status_allows_pro(license_status.as_str()) {
        return deny(stored, license_status, email, is_current, now_ms);
    }
    if !is_current {
        return ValidationStep::Fail(superseded());
    }
    let customer_email = match email {
        Some(e) => Some(e),
        None => stored.customer_email,
    };
    ValidationStep::SaveValid(
        StoredLicense {
            license_key: stored.license_key,
            instance_id: stored.instance_id,
            product_id: stored.product_id,
            license_status,
            customer_email,
            last_validated_unix_ms: now_ms,
        },
    )
}

/// After an attempt to store what a validation led to.
pub fn validation_saved(step: &ValidationStep, saved: Result<(), String>, now_ms: u64) -> (r:
    Result<LicenseState, LicenseError>)
    ensures
        match *step {
            ValidationStep::Fail(error) => r matches Err(e) && e@ == error@,
            ValidationStep::SaveDenied { license, status } => match saved {
                Ok(_) => r matches Ok(state) && state@ == stored_state(license@, now_ms),
                Err(text) => r matches Err(e) && e@ == (ErrorModel {
                    kind: LicenseErrorKind::Local,
                    message: "License is "@ + status_label(status@)
                        + ", but could not update local license: "@ + text@,
                }),
            },
            ValidationStep::SaveValid(license) => match saved {
                Ok(_) => r matches Ok(state) && state@ == stored_state(license@, now_ms),
                Err(text) => r matches Err(e) && e@ == (ErrorModel {
                    kind: LicenseErrorKind::Local,
                    message: "Validated, but could not save license: "@ + text@,
                }),
            },
        },
{
    match step {
        ValidationStep::Fail(error) => Err(
            LicenseError { kind: error.kind, message: error.message.clone() },
        ),
        ValidationStep::SaveDenied { license, status } => match saved {
            Ok(_) => Ok(LicenseState::from_stored_license(license, now_ms)),
            Err(text) => {
                let label = license_status_label(status.as_str());
                let mut message = concat("License is ", label.as_str());
                message.append(", but could not update local license: ");
                message.append(text.as_str());
                Err(LicenseError::local(message.as_str()))
            },
        },
        ValidationStep::SaveValid(license) => match saved {
            Ok(_) => Ok(LicenseState::from_stored_license(license, now_ms)),
            Err(text) => {
                let message = concat("Validated, but could not save license: ", text.as_str());
                Err(LicenseError::local(message.as_str()))
            },
        },
    }
}

/// What a deactivation leads to.
#[derive(Clone, Debug, PartialEq, Eq)]
pub enum DeactivationStep {
    /// It failed, and what is stored stays.
    Fail(LicenseError),
    /// Remove what is stored; whether there was nothing left to deactivate.
    Clear { already_gone: bool },
}

/// What the reply to a deactivation decides: an error, or that the licence is
/// to be cleared, and whether it was gone already.
pub open spec fn deactivation_verdict(reply: Result<LicenseApiResponse, LicenseError>) -> Result<
    bool,
    ErrorModel,
> {
    match reply {
        Err(error) => if error@.kind == LicenseErrorKind::Authoritative && says_already_gone(
            error@.message,
        ) {
            Ok(true)
        } else {
            Err(error@)
        },
        Ok(response) => if response.deactivated == Some(true) {
            Ok(false)
        } else {
            let message = response.error_or("License deactivation failed"@);
            if says_already_gone(message) {
                Ok(true)
            } else {
                Err(ErrorModel { kind: LicenseErrorKind::Authoritative, message })
            }
        },
    }
}

/// Whether the reply to a deactivation leads to this step.
pub open spec fn deactivation_leads_to(
    reply: Result<LicenseApiResponse, LicenseError>,
    is_current: bool,
    step: DeactivationStep,
) -> bool {
    match deactivation_verdict(reply) {
        Err(error) => step matches DeactivationStep::Fail(e) && e@ == error,
        Ok(gone) => if is_current {
            step == (DeactivationStep::Clear { already_gone: gone })
        } else {
            step matches DeactivationStep::Fail(e) && e@ == superseded_error()
        },
    }
}

/// Decides what the reply to a deactivation that nothing can overtake leads to.
pub fn deactivate_stored_license(reply: Result<LicenseApiResponse, LicenseError>) -> (r:
    DeactivationStep)
    ensures
        deactivation_leads_to(reply, true, r),
{
    deactivate_stored_license_if_current(reply, true)
}

/// Decides what the reply to a deactivation leads to.
pub fn deactivate_stored_license_if_current(
    reply: Result<LicenseApiResponse, LicenseError>,
    is_current: bool,
) -> (r: DeactivationStep)
    ensures
        deactivation_leads_to(reply, is_current, r),
{
    let already_gone: bool = match reply {
        Err(error) => {
            let decided = match error.kind {
                LicenseErrorKind::Authoritative => true,
                _ => false,
            };
            if !decided || !deactivation_error_allows_local_clear(error.message.as_str()) {
                return DeactivationStep::Fail(error);
            }
            true
        },
        Ok(response) => {
            let done = match response.deactivated {
                Some(d) => d,
                None => false,
            };
            if done {
                false
            } else {
                let message = response.error("License deactivation failed");
                if !deactivation_error_allows_local_clear(message.as_str()) {
                    return DeactivationStep::Fail(LicenseError::authoritative(message.as_str()));
                }
                true
            }
        },
    };
    if !is_current {
        return DeactivationStep::Fail(superseded());
    }
    DeactivationStep::Clear { already_gone }
}

/// The error for a stored licence that could not be removed.
pub fn clear_failed(already_gone: bool, error: &str) -> (r: LicenseError)
    ensures
        r@ == (ErrorModel {
            kind: LicenseErrorKind::Local,
            message: if already_gone {
                "Activation is already gone, but could not clear local license: "@ + error@
            } else {
                "Deactivated, but could not clear license: "@ + error@
            },
        }),
{
    let text = if already_gone {
        concat("Activation is already gone, but could not clear local license: ", error)
    } else {
        concat("Deactivated, but could not clear license: ", error)
    };
    LicenseError::local(text.as_str())
}

/// A licence that was denied gives the free tier from then on, unless the status
/// of the denial is itself one that allows the paid tier.
pub proof fn denial_takes_pro_away(
    l: LicenseModel,
    status: Seq<char>,
    email: Option<Seq<char>>,
    now_ms: u64,
    later_ms: u64,
)
    requires
        !allows_pro(denied_status(status)),
    ensures
        stored_state(denied(l, status, email, now_ms), later_ms).tier == LicenseTier::Free,
{
}

/// A decision of the service that reaches this computer as an error takes the
/// paid tier away.
pub proof fn refused_validation_takes_pro_away(
    l: LicenseModel,
    error: LicenseError,
    now_ms: u64,
    later_ms: u64,
)
    requires
        error@.kind == LicenseErrorKind::Authoritative,
    ensures
        validation_verdict(l, Err::<LicenseApiResponse, LicenseError>(error)) matches ValidationModel::Denied {
            status,
            email,
        } && stored_state(denied(l, status, email, now_ms), later_ms).tier == LicenseTier::Free,
{
    let status = status_in_message(error@.message);
    status_words_are_clean();
    reveal_strlit("active");
    reveal_strlit("inactive");
    reveal_strlit("disabled");
    reveal_strlit("expired");
    reveal_strlit("refunded");
    reveal_strlit("revoked");
    reveal_strlit("invalid");
    assert("active"@.len() == 6 && "inactive"@.len() == 8);
    assert("inactive"@[0] == 'i' && "disabled"@[0] == 'd' && "refunded"@[0] == 'r');
}

proof fn status_words_are_clean()
    ensures
        denied_status("disabled"@) == "disabled"@,
        denied_status("expired"@) == "expired"@,
        denied_status("refunded"@) == "refunded"@,
        denied_status("revoked"@) == "revoked"@,
        denied_status("invalid"@) == "invalid"@,
{
    reveal_strlit("disabled");
    reveal_strlit("expired");
    reveal_strlit("refunded");
    reveal_strlit("revoked");
    reveal_strlit("invalid");
    clean_word("disabled"@);
    clean_word("expired"@);
    clean_word("refunded"@);
    clean_word("revoked"@);
    clean_word("invalid"@);
}

proof fn clean_word(s: Seq<char>)
    requires
        0 < s.len() <= 40,
        forall|k: int| 0 <= k < s.len() ==> 'a' <= #[trigger] s[k] <= 'z',
    ensures
        denied_status(s) == s,
{
    crate::text::trim_seq_fixed(s);
    all_status_chars(s);
}

proof fn all_status_chars(s: Seq<char>)
    requires
        forall|k: int| 0 <= k < s.len() ==> 'a' <= #[trigger] s[k] <= 'z',
    ensures
        crate::license::status_chars(s) == s,
    decreases s.len(),
{
    if s.len() > 0 {
        let t = s.drop_last();
        assert forall|k: int| 0 <= k < t.len() implies 'a' <= #[trigger] t[k] <= 'z' by {
            assert(t[k] == s[k]);
        }
        all_status_chars(t);
        assert('a' <= s[s.len() - 1] <= 'z');
        assert(s =~= t.push(s.last()));
    } else {
        assert(s =~= Seq::<char>::empty());
    }
}

/// A transient error never changes what is stored.
pub proof fn transient_error_keeps_the_license(l: LicenseModel, error: LicenseError)
    requires
        error@.kind != LicenseErrorKind::Authoritative,
    ensures
        validation_verdict(l, Err::<LicenseApiResponse, LicenseError>(error))
            == ValidationModel::Fail(error@),
{
}

/// An activated licence gives the paid tier.
pub proof fn activated_license_is_pro(
    license_key: Seq<char>,
    response: LicenseApiResponse,
    now_ms: u64,
    later_ms: u64,
)
    requires
        allows_pro(response.status_or("active"@)),
    ensures
        stored_state(activated_license(license_key, response, now_ms), later_ms).tier
            == LicenseTier::Pro,
{
}

/// An activation is kept only where the service says that it was made, for this
/// product, with a status that allows the paid tier, and nothing newer was asked for.
/// One that was made but is not kept is undone.
pub proof fn activation_is_kept_or_undone(
    license_key: Seq<char>,
    response: LicenseApiResponse,
    is_current: bool,
    now_ms: u64,
    step: ActivationStep,
)
    requires
        activation_leads_to(license_key, response, is_current, now_ms, step),
    ensures
        ({
            let made = response.activated == Some(true) && response.instance_text().len() > 0;
            let good = response.product() == Some(1_195_401u64) && (response.status_or("active"@)
                == "active"@ || response.status_or("active"@) == "inactive"@);
            &&& (step is Save <==> made && good && is_current)
            &&& (step is DeactivateAndFail <==> made && !(good && is_current))
            &&& (step is Fail <==> !made)
            &&& (step matches ActivationStep::Save(stored) ==> stored@.license_key == license_key
                && stored@.instance_id == response.instance_text() && stored@.product_id
                == 1_195_401 && stored@.last_validated_unix_ms == now_ms)
            &&& (step matches ActivationStep::DeactivateAndFail { instance_id, .. } ==> instance_id@
                == response.instance_text())
        }),
{
}

/// A validation that the service grants for this product, with a status that allows the
/// paid tier, is kept with its time, and the licence stays what it is.
pub proof fn granted_validation_is_kept(
    l: LicenseModel,
    response: LicenseApiResponse,
    now_ms: u64,
    step: ValidationStep,
)
    requires
        response.valid == Some(true),
        response.product() == Some(1_195_401u64),
        response.status_or(l.license_status) == "active"@ || response.status_or(l.license_status)
            == "inactive"@,
        validation_leads_to(
            l,
            Ok::<LicenseApiResponse, LicenseError>(response),
            true,
            now_ms,
            step,
        ),
    ensures
        step matches ValidationStep::SaveValid(kept) && kept@.license_key == l.license_key
            && kept@.instance_id == l.instance_id && kept@.product_id == l.product_id
            && kept@.license_status == response.status_or(l.license_status)
            && kept@.last_validated_unix_ms == now_ms,
{
}

/// A validation that the service denies, or grants for another product or with another
/// status, is a denial; one that leaves the question open changes nothing.
pub proof fn denied_validation_is_kept_as_one(
    l: LicenseModel,
    response: LicenseApiResponse,
    now_ms: u64,
    step: ValidationStep,
)
    requires
        validation_leads_to(
            l,
            Ok::<LicenseApiResponse, LicenseError>(response),
            true,
            now_ms,
            step,
        ),
    ensures
        response.valid == Some(false) ==> step is SaveDenied,
        response.valid == Some(true) && response.product() is Some && response.product() != Some(
            1_195_401u64,
        ) ==> step is SaveDenied,
        response.valid is None ==> step is Fail,
        response.valid == Some(true) && response.product() is None ==> step is Fail,
        step matches ValidationStep::SaveDenied { license, .. } ==> license@.license_key
            == l.license_key && license@.instance_id == l.instance_id && license@.product_id
            == l.product_id && license@.last_validated_unix_ms == now_ms,
{
}

/// An answer that comes after something newer was asked for changes nothing.
pub proof fn overtaken_validation_changes_nothing(
    l: LicenseModel,
    reply: Result<LicenseApiResponse, LicenseError>,
    now_ms: u64,
    step: ValidationStep,
)
    requires
        validation_leads_to(l, reply, false, now_ms, step),
    ensures
        step is Fail,
{
}

/// A deactivation that the service confirms, or that finds nothing left to undo, clears
/// the licence; any other answer leaves it.
pub proof fn deactivation_clears_what_is_gone(
    reply: Result<LicenseApiResponse, LicenseError>,
    is_current: bool,
    step: DeactivationStep,
)
    requires
        deactivation_leads_to(reply, is_current, step),
    ensures
        reply matches Ok(response) ==> (response.deactivated == Some(true) && is_current ==> step
            == (DeactivationStep::Clear { already_gone: false })),
        reply matches Err(error) ==> (error@.kind != LicenseErrorKind::Authoritative ==> step
            is Fail),
        reply matches Err(error) ==> (error@.kind == LicenseErrorKind::Authoritative
            && says_already_gone(error@.message) && is_current ==> step == (
        DeactivationStep::Clear { already_gone: true })),
        !is_current ==> step is Fail,
{
}

/// A denied licence keeps its key, its instance and its product, and its address where
/// the reply gives no other; its status is that of the denial, seen now.
pub proof fn denial_keeps_what_names_the_license(
    l: LicenseModel,
    status: Seq<char>,
    email: Seq<char>,
    now_ms: u64,
)
    ensures
        ({
            let d = denied(l, status, None, now_ms);
            &&& d.license_key == l.license_key
            &&& d.instance_id == l.instance_id
            &&& d.product_id == l.product_id
            &&& d.customer_email == l.customer_email
            &&& d.last_validated_unix_ms == now_ms
            &&& d.license_status == denied_status(status)
            &&& denied(l, status, Some(email), now_ms).customer_email == Some(email)
        }),
{
}

/// A product is given by a number or by its decimal digits, and by nothing else.
pub proof fn product_is_a_number_or_its_digits(n: u64, text: Seq<char>)
    ensures
        product_number(Some(ScalarModel::Unsigned(n))) == Some(n),
        product_number(Some(ScalarModel::Text(text))) == parse_u64_seq(text),
        product_number(None) is None,
{
}

/// An activated licence is that of the product, with the instance and the address of
/// the reply, white space around them aside, and is seen now.
pub proof fn activation_stores_the_reply(
    license_key: Seq<char>,
    response: LicenseApiResponse,
    now_ms: u64,
)
    ensures
        ({
            let l = activated_license(license_key, response, now_ms);
            &&& l.license_key == license_key
            &&& l.last_validated_unix_ms == now_ms
            &&& (response.license_key is None ==> l.license_status == "active"@)
            &&& (response.license_key matches Some(k) ==> l.license_status == k.status@)
            &&& (response.instance matches Some(i) ==> l.instance_id == trim_seq(i.id@))
            &&& (response.meta is None ==> l.customer_email is None)
        }),
        trimmed_email(None) is None,
        forall|e: Seq<char>|
            trim_seq(e).len() == 0 ==> #[trigger] trimmed_email(Some(e)) is None,
        forall|e: Seq<char>|
            trim_seq(e).len() > 0 ==> #[trigger] trimmed_email(Some(e)) == Some(trim_seq(e)),
{
}

} // verus!

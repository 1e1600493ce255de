//! What a licence allows, and how it is stored.
use vstd::prelude::*;
use crate::decimal::{decimal, digits, parse_of_digits, parse_u64, parse_u64_seq};
use crate::fields::{
    escape_field, escape_is_clean, escape_seq, is_plain_line, joined, joined_push, lacks, lines,
    lines_of, lines_of_joined, split_once, split_once_of_join, split_once_seq, texts,
    unescape_field, unescape_of_escape, unescape_seq,
};
use crate::text::{
    bounded, contains_seq, contains_text, from_chars, is_blank, lower_chars, lower_seq, owned,
    same_text, take_at_most, to_chars, trim, trim_seq, trim_seq_shape,
};

verus! {

/// The product that a licence has to be for.
pub const FASTPLAY_PRO_PRODUCT_ID: u64 = 1_195_401;

/// Milliseconds after a validation before the licence counts as offline: 14 days.
pub const OFFLINE_GRACE_MS: u64 = 1_209_600_000;

/// What the user has.
#[derive(Clone, Copy, Debug, PartialEq, Eq, Structural)]
pub enum LicenseTier {
    Free,
    Pro,
}

/// What the tier rests on.
#[derive(Clone, Copy, Debug, PartialEq, Eq, Structural)]
pub enum LicenseSource {
    Free,
    DevelopmentOverride,
    StoredLicense,
    OfflineGrace,
    NeedsValidation,
}

/// The state of the licence.
#[derive(Clone, Debug, PartialEq, Eq)]
pub struct LicenseState {
    pub tier: LicenseTier,
    pub status_label: String,
    pub source: LicenseSource,
}

/// The model of that state.
pub struct StateModel {
    pub tier: LicenseTier,
    pub status_label: Seq<char>,
    pub source: LicenseSource,
}

impl View for LicenseState {
    type V = StateModel;

    open spec fn view(&self) -> StateModel {
        StateModel { tier: self.tier, status_label: self.status_label@, source: self.source }
    }
}

/// A licence as it is stored.
#[derive(Clone, Debug, PartialEq, Eq)]
pub struct StoredLicense {
    pub license_key: String,
    pub instance_id: String,
    pub product_id: u64,
    pub license_status: String,
    pub customer_email: Option<String>,
    pub last_validated_unix_ms: u64,
}

/// The model of a stored licence.
pub struct LicenseModel {
    pub license_key: Seq<char>,
    pub instance_id: Seq<char>,
    pub product_id: u64,
    pub license_status: Seq<char>,
    pub customer_email: Option<Seq<char>>,
    pub last_validated_unix_ms: u64,
}

/// The text of an optional string.
pub open spec fn opt_text(s: Option<String>) -> Option<Seq<char>> {
    match s {
        Some(t) => Some(t@),
        None => None,
    }
}

impl View for StoredLicense {
    type V = LicenseModel;

    open spec fn view(&self) -> LicenseModel {
        LicenseModel {
            license_key: self.license_key@,
            instance_id: self.instance_id@,
            product_id: self.product_id,
            license_status: self.license_status@,
            customer_email: opt_text(self.customer_email),
            last_validated_unix_ms: self.last_validated_unix_ms,
        }
    }
}

/// What an error of the licence service means.
#[derive(Clone, Copy, Debug, PartialEq, Eq, Structural)]
pub enum LicenseErrorKind {
    /// It arose here.
    Local,
    /// It may go away by itself.
    Transient,
    /// The service has decided.
    Authoritative,
}

/// An error of the licence service.
#[derive(Clone, Debug, PartialEq, Eq)]
pub struct LicenseError {
    pub kind: LicenseErrorKind,
    pub message: String,
}

/// The model of an error.
pub struct ErrorModel {
    pub kind: LicenseErrorKind,
    pub message: Seq<char>,
}

impl View for LicenseError {
    type V = ErrorModel;

    open spec fn view(&self) -> ErrorModel {
        ErrorModel { kind: self.kind, message: self.message@ }
    }
}

/// A copy of an optional string.
pub(crate) fn copy_opt(s: &Option<String>) -> (r: Option<String>)
    ensures
        opt_text(r) == opt_text(*s),
{
    match s {
        Some(t) => Some(t.clone()),
        None => None,
    }
}

impl LicenseError {
    pub fn local(message: &str) -> (r: Self)
        ensures
            r@ == (ErrorModel { kind: LicenseErrorKind::Local, message: message@ }),
    {
        LicenseError { kind: LicenseErrorKind::Local, message: owned(message) }
    }

    pub fn transient(message: &str) -> (r: Self)
        ensures
            r@ == (ErrorModel { kind: LicenseErrorKind::Transient, message: message@ }),
    {
        LicenseError { kind: LicenseErrorKind::Transient, message: owned(message) }
    }

    pub fn authoritative(message: &str) -> (r: Self)
        ensures
            r@ == (ErrorModel { kind: LicenseErrorKind::Authoritative, message: message@ }),
    {
        LicenseError { kind: LicenseErrorKind::Authoritative, message: owned(message) }
    }

    pub fn kind(&self) -> (r: LicenseErrorKind)
        ensures
            r == self@.kind,
    {
        self.kind
    }

    pub fn message(&self) -> (r: &str)
        ensures
            r@ == self@.message,
    {
        self.message.as_str()
    }
}

/// Whether a status allows the paid tier.
pub open spec fn allows_pro(status: Seq<char>) -> bool {
    status == "active"@ || status == "inactive"@
}

/// Whether a status allows the paid tier.
pub fn license_status_allows_pro(status: &str) -> (r: bool)
    ensures
        r == allows_pro(status@),
{
    same_text(status, "active") || same_text(status, "inactive")
}

/// Whether a character may stand in a status.
pub open spec fn is_status_char(c: char) -> bool {
    ('a' <= c <= 'z') || ('A' <= c <= 'Z') || ('0' <= c <= '9') || c == '_' || c == '-' || c == ' '
}

/// A text without the characters that may not stand in a status.
pub open spec fn status_chars(s: Seq<char>) -> Seq<char>
    decreases s.len(),
{
    if s.len() == 0 {
        Seq::empty()
    } else if is_status_char(s.last()) {
        status_chars(s.drop_last()).push(s.last())
    } else {
        status_chars(s.drop_last())
    }
}

/// A status as it is shown: what may stand in one, up to 40 characters.
pub open spec fn cleaned_status(status: Seq<char>) -> Seq<char> {
    trim_seq(take_at_most(status_chars(trim_seq(status)), 40))
}

/// A status as it is shown; a blank one is invalid.
pub open spec fn status_label(status: Seq<char>) -> Seq<char> {
    if trim_seq(status).len() == 0 {
        "invalid"@
    } else {
        cleaned_status(status)
    }
}

fn clean_status(status: &str) -> (r: String)
    ensures
        r@ == cleaned_status(status@),
{
    let trimmed = trim(status);
    let x = to_chars(trimmed.as_str());
    let mut kept: Vec<char> = Vec::new();
    let mut i: usize = 0;
    proof {
        assert(kept@ =~= status_chars(trimmed@.take(0)));
    }
    while i < x.len()
        invariant
            i <= x@.len(),
            x@ == trimmed@,
            kept@ == status_chars(trimmed@.take(i as int)),
        decreases x@.len() - i,
    {
        let c = x[i];
        proof {
            assert(trimmed@.take(i + 1).drop_last() =~= trimmed@.take(i as int));
            assert(trimmed@.take(i + 1).last() == c);
        }
        if ('a' <= c && c <= 'z') || ('A' <= c && c <= 'Z') || ('0' <= c && c <= '9') || c == '_'
            || c == '-' || c == ' ' {
            kept.push(c);
        }
        i = i + 1;
    }
    proof {
        assert(trimmed@.take(trimmed@.len() as int) =~= trimmed@);
    }
    let all = from_chars(&kept);
    let short = bounded(all.as_str(), 40);
    trim(short.as_str())
}

/// A status as it is shown.
pub fn license_status_label(status: &str) -> (r: String)
    ensures
        r@ == status_label(status@),
{
    if is_blank(status) {
        return owned("invalid");
    }
    clean_status(status)
}

/// The status that is stored after a denial; if nothing of it is left it is
/// invalid.
pub open spec fn denied_status(status: Seq<char>) -> Seq<char> {
    if trim_seq(status).len() == 0 || cleaned_status(status).len() == 0 {
        "invalid"@
    } else {
        cleaned_status(status)
    }
}

/// The status that is stored after a denial.
pub fn normalized_denied_status(status: &str) -> (r: String)
    ensures
        r@ == denied_status(status@),
{
    if is_blank(status) {
        return owned("invalid");
    }
    let cleaned = clean_status(status);
    if cleaned.as_str().unicode_len() == 0 {
        owned("invalid")
    } else {
        cleaned
    }
}

/// The status that the message of a decision tells of.
pub open spec fn status_in_message(message: Seq<char>) -> Seq<char> {
    let m = lower_seq(message);
    if contains_seq(m, "disabled"@) {
        "disabled"@
    } else if contains_seq(m, "expired"@) {
        "expired"@
    } else if contains_seq(m, "refunded"@) {
        "refunded"@
    } else if contains_seq(m, "revoked"@) {
        "revoked"@
    } else {
        "invalid"@
    }
}

/// The status that the message of a decision tells of.
pub fn status_from_authoritative_error(message: &str) -> (r: String)
    ensures
        r@ == status_in_message(message@),
{
    let m = from_chars(&lower_chars(message));
    if contains_text(m.as_str(), "disabled") {
        owned("disabled")
    } else if contains_text(m.as_str(), "expired") {
        owned("expired")
    } else if contains_text(m.as_str(), "refunded") {
        owned("refunded")
    } else if contains_text(m.as_str(), "revoked") {
        owned("revoked")
    } else {
        owned("invalid")
    }
}

/// Whether the message of a refused deactivation says that there is nothing
/// left to deactivate.
pub open spec fn says_already_gone(message: Seq<char>) -> bool {
    let m = lower_seq(message);
    ||| contains_seq(m, "already deactivated"@)
    ||| contains_seq(m, "already been deactivated"@)
    ||| contains_seq(m, "activation not found"@)
    ||| contains_seq(m, "instance not found"@)
    ||| contains_seq(m, "activation does not exist"@)
    ||| contains_seq(m, "instance does not exist"@)
}

/// Whether the message of a refused deactivation says that there is nothing
/// left to deactivate, so that the licence can be cleared here.
pub fn deactivation_error_allows_local_clear(message: &str) -> (r: bool)
    ensures
        r == says_already_gone(message@),
{
    let m = from_chars(&lower_chars(message));
    contains_text(m.as_str(), "already deactivated") || contains_text(
        m.as_str(),
        "already been deactivated",
    ) || contains_text(m.as_str(), "activation not found") || contains_text(
        m.as_str(),
        "instance not found",
    ) || contains_text(m.as_str(), "activation does not exist") || contains_text(
        m.as_str(),
        "instance does not exist",
    )
}

/// Whether the value of the development switch is on.
pub open spec fn is_switched_on(value: Seq<char>) -> bool {
    let v = trim_seq(value);
    v == "1"@ || v == "true"@ || v == "TRUE"@ || v == "yes"@ || v == "YES"@
}

/// The state without a licence.
pub open spec fn free_state() -> StateModel {
    StateModel {
        tier: LicenseTier::Free,
        status_label: "FastPlay Free"@,
        source: LicenseSource::Free,
    }
}

/// The state that the development switch gives.
pub open spec fn override_state() -> StateModel {
    StateModel {
        tier: LicenseTier::Pro,
        status_label: "FastPlay Pro (development override)"@,
        source: LicenseSource::DevelopmentOverride,
    }
}

/// The state that a stored licence gives: the paid tier for a licence of this
/// product whose status allows it. After the grace period the label says so.
pub open spec fn stored_state(l: LicenseModel, now_ms: u64) -> StateModel {
    if l.product_id != FASTPLAY_PRO_PRODUCT_ID {
        StateModel {
            tier: LicenseTier::Free,
            status_label: "FastPlay Free (license product mismatch)"@,
            source: LicenseSource::NeedsValidation,
        }
    } else if !allows_pro(l.license_status) {
        StateModel {
            tier: LicenseTier::Free,
            status_label: "FastPlay Free (license "@ + status_label(l.license_status) + ")"@,
            source: LicenseSource::NeedsValidation,
        }
    } else if l.last_validated_unix_ms == 0 || now_ms - l.last_validated_unix_ms
        <= OFFLINE_GRACE_MS {
        StateModel {
            tier: LicenseTier::Pro,
            status_label: "FastPlay Pro"@,
            source: LicenseSource::StoredLicense,
        }
    } else {
        StateModel {
            tier: LicenseTier::Pro,
            status_label: "FastPlay Pro (offline grace)"@,
            source: LicenseSource::OfflineGrace,
        }
    }
}

/// The state of the licence: the development switch comes first, then a stored
/// licence.
pub open spec fn detected_state(
    dev_override: Option<Seq<char>>,
    stored: Option<LicenseModel>,
    now_ms: u64,
) -> StateModel {
    if dev_override matches Some(value) && is_switched_on(value) {
        override_state()
    } else {
        match stored {
            Some(l) => stored_state(l, now_ms),
            None => free_state(),
        }
    }
}

fn state(tier: LicenseTier, label: &str, source: LicenseSource) -> (r: LicenseState)
    ensures
        r@ == (StateModel { tier, status_label: label@, source }),
{
    LicenseState { tier, status_label: owned(label), source }
}

impl Default for LicenseState {
    fn default() -> (r: Self)
        ensures
            r@ == free_state(),
    {
        state(LicenseTier::Free, "FastPlay Free", LicenseSource::Free)
    }
}

impl LicenseState {
    /// The state of the licence, given the development switch and what is stored.
    pub fn detect_with(
        dev_override: Option<&str>,
        stored: Option<StoredLicense>,
        now_ms: u64,
    ) -> (r: Self)
        ensures
            r@ == detected_state(
                match dev_override {
                    Some(value) => Some(value@),
                    None => None,
                },
                match stored {
                    Some(l) => Some(l@),
                    None => None,
                },
                now_ms,
            ),
    {
        if let Some(found) = Self::from_dev_override_value(dev_override) {
            return found;
        }
        match stored {
            Some(l) => Self::from_stored_license(&l, now_ms),
            None => state(LicenseTier::Free, "FastPlay Free", LicenseSource::Free),
        }
    }

    /// The state that the development switch gives, if it is on.
    pub fn from_dev_override_value(value: Option<&str>) -> (r: Option<Self>)
        ensures
            match r {
                Some(found) => found@ == override_state() && (value matches Some(v)
                    && is_switched_on(v@)),
                None => !(value matches Some(v) && is_switched_on(v@)),
            },
    {
        let v = match value {
            Some(v) => trim(v),
            None => {
                return None;
            },
        };
        if same_text(v.as_str(), "1") || same_text(v.as_str(), "true") || same_text(
            v.as_str(),
            "TRUE",
        ) || same_text(v.as_str(), "yes") || same_text(v.as_str(), "YES") {
            Some(
                state(
                    LicenseTier::Pro,
                    "FastPlay Pro (development override)",
                    LicenseSource::DevelopmentOverride,
                ),
            )
        } else {
            None
        }
    }

    /// The state that a stored licence gives.
    pub fn from_stored_license(stored: &StoredLicense, now_ms: u64) -> (r: Self)
        ensures
            r@ == stored_state(stored@, now_ms),
    {
        if stored.product_id != FASTPLAY_PRO_PRODUCT_ID {
            return state(
                LicenseTier::Free,
                "FastPlay Free (license product mismatch)",
                LicenseSource::NeedsValidation,
            );
        }
        if !license_status_allows_pro(stored.license_status.as_str()) {
            let label = license_status_label(stored.license_status.as_str());
            let mut text = owned("FastPlay Free (license ");
            text.append(label.as_str());
            text.append(")");
            return LicenseState {
                tier: LicenseTier::Free,
                status_label: text,
                source: LicenseSource::NeedsValidation,
            };
        }
        let age_ms: u64 = now_ms.saturating_sub(stored.last_validated_unix_ms);
        if stored.last_validated_unix_ms == 0 || age_ms <= OFFLINE_GRACE_MS {
            state(LicenseTier::Pro, "FastPlay Pro", LicenseSource::StoredLicense)
        } else {
            state(LicenseTier::Pro, "FastPlay Pro (offline grace)", LicenseSource::OfflineGrace)
        }
    }

    /// Whether the licence should be validated when the program starts.
    pub fn should_validate_on_startup(&self) -> (r: bool)
        ensures
            r == (self@.source == LicenseSource::StoredLicense || self@.source
                == LicenseSource::OfflineGrace),
    {
        match self.source {
            LicenseSource::StoredLicense | LicenseSource::OfflineGrace => true,
            _ => false,
        }
    }

    fn is_pro(&self) -> (r: bool)
        ensures
            r == (self@.tier == LicenseTier::Pro),
    {
        match self.tier {
            LicenseTier::Pro => true,
            LicenseTier::Free => false,
        }
    }

    pub fn can_save_markers(&self) -> (r: bool)
        ensures
            r == (self@.tier == LicenseTier::Pro),
    {
        self.is_pro()
    }

    pub fn can_edit_marker_notes(&self) -> (r: bool)
        ensures
            r == (self@.tier == LicenseTier::Pro),
    {
        self.is_pro()
    }

    pub fn can_export_markers(&self) -> (r: bool)
        ensures
            r == (self@.tier == LicenseTier::Pro),
    {
        self.is_pro()
    }

    pub fn can_batch_export_marker_screenshots(&self) -> (r: bool)
        ensures
            r == (self@.tier == LicenseTier::Pro),
    {
        self.is_pro()
    }

    pub fn can_save_review_queues(&self) -> (r: bool)
        ensures
            r == (self@.tier == LicenseTier::Pro),
    {
        self.is_pro()
    }

    pub fn can_load_review_queues(&self) -> (r: bool)
        ensures
            r == (self@.tier == LicenseTier::Pro),
    {
        self.is_pro()
    }

    pub fn can_delete_review_queues(&self) -> (r: bool)
        ensures
            r == (self@.tier == LicenseTier::Pro),
    {
        self.is_pro()
    }
}

/// How a field is stored.
pub open spec fn field_row(key: Seq<char>, value: Seq<char>) -> Seq<char> {
    key + seq!['\t'] + escape_seq(value)
}

/// How a licence is stored.
pub open spec fn license_lines(l: LicenseModel) -> Seq<Seq<char>> {
    seq![
        field_row("license_key"@, l.license_key),
        field_row("instance_id"@, l.instance_id),
        field_row("product_id"@, digits(l.product_id as nat)),
        field_row("license_status"@, l.license_status),
        field_row(
            "customer_email"@,
            match l.customer_email {
                Some(e) => e,
                None => Seq::empty(),
            },
        ),
        field_row("last_validated_unix_ms"@, digits(l.last_validated_unix_ms as nat)),
    ]
}

/// What was read of a licence so far.
pub struct FieldsRead {
    pub license_key: Option<Seq<char>>,
    pub instance_id: Option<Seq<char>>,
    pub product_id: Option<u64>,
    pub license_status: Option<Seq<char>>,
    pub customer_email: Option<Seq<char>>,
    pub last_validated_unix_ms: Option<u64>,
}

/// Nothing read yet.
pub open spec fn nothing_read() -> FieldsRead {
    FieldsRead {
        license_key: None,
        instance_id: None,
        product_id: None,
        license_status: None,
        customer_email: None,
        last_validated_unix_ms: None,
    }
}

impl FieldsRead {
    /// After a field: a later one counts, and an unknown one does not.
    pub open spec fn with_field(self, key: Seq<char>, value: Seq<char>) -> Self {
        if key == "license_key"@ {
            FieldsRead { license_key: Some(value), ..self }
        } else if key == "instance_id"@ {
            FieldsRead { instance_id: Some(value), ..self }
        } else if key == "product_id"@ {
            FieldsRead { product_id: parse_u64_seq(value), ..self }
        } else if key == "license_status"@ {
            FieldsRead { license_status: Some(value), ..self }
        } else if key == "customer_email"@ {
            if value.len() > 0 {
                FieldsRead { customer_email: Some(value), ..self }
            } else {
                self
            }
        } else if key == "last_validated_unix_ms"@ {
            FieldsRead { last_validated_unix_ms: parse_u64_seq(value), ..self }
        } else {
            self
        }
    }

    /// After a line; `None` if a field's escapes are malformed.
    pub open spec fn after(self, line: Seq<char>) -> Option<Self> {
        match split_once_seq(line, '\t') {
            Some((key, value)) => match unescape_seq(value) {
                Some(text) => Some(self.with_field(key, text)),
                None => None,
            },
            None => Some(self),
        }
    }

    /// The licence, if a key, an instance and a product were read.
    pub open spec fn license(self) -> Option<LicenseModel> {
        match (self.license_key, self.instance_id, self.product_id) {
            (Some(license_key), Some(instance_id), Some(product_id)) => if trim_seq(
                license_key,
            ).len() > 0 && trim_seq(instance_id).len() > 0 {
                Some(
                    LicenseModel {
                        license_key,
                        instance_id,
                        product_id,
                        license_status: match self.license_status {
                            Some(s) => s,
                            None => "active"@,
                        },
                        customer_email: self.customer_email,
                        last_validated_unix_ms: match self.last_validated_unix_ms {
                            Some(n) => n,
                            None => 0,
                        },
                    },
                )
            } else {
                None
            },
            _ => None,
        }
    }
}

/// What lines give of a licence; `None` if one of them is malformed.
pub open spec fn fields_of(lines: Seq<Seq<char>>) -> Option<FieldsRead>
    decreases lines.len(),
{
    if lines.len() == 0 {
        Some(nothing_read())
    } else {
        match fields_of(lines.drop_last()) {
            Some(f) => f.after(lines.last()),
            None => None,
        }
    }
}

/// The licence that a text stands for, if it stands for one.
pub open spec fn parsed_license(text: Seq<char>) -> Option<LicenseModel> {
    match fields_of(lines_of(text)) {
        Some(f) => f.license(),
        None => None,
    }
}

/// What is read of a licence.
struct Fields {
    license_key: Option<String>,
    instance_id: Option<String>,
    product_id: Option<u64>,
    license_status: Option<String>,
    customer_email: Option<String>,
    last_validated_unix_ms: Option<u64>,
}

impl Fields {
    spec fn model(self) -> FieldsRead {
        FieldsRead {
            license_key: opt_text(self.license_key),
            instance_id: opt_text(self.instance_id),
            product_id: self.product_id,
            license_status: opt_text(self.license_status),
            customer_email: opt_text(self.customer_email),
            last_validated_unix_ms: self.last_validated_unix_ms,
        }
    }

    fn take_field(&mut self, key: &str, value: String)
        ensures
            final(self).model() == old(self).model().with_field(key@, value@),
    {
        if same_text(key, "license_key") {
            self.license_key = Some(value);
        } else if same_text(key, "instance_id") {
            self.instance_id = Some(value);
        } else if same_text(key, "product_id") {
            self.product_id = parse_u64(value.as_str());
        } else if same_text(key, "license_status") {
            self.license_status = Some(value);
        } else if same_text(key, "customer_email") {
            if value.as_str().unicode_len() > 0 {
                self.customer_email = Some(value);
            }
        } else if same_text(key, "last_validated_unix_ms") {
            self.last_validated_unix_ms = parse_u64(value.as_str());
        }
    }
}

fn push_field(out: &mut String, key: &str, value: &str)
    ensures
        final(out)@ == old(out)@ + field_row(key@, value@) + seq!['\n'],
{
    let ghost before = out@;
    let escaped = escape_field(value);
    out.append(key);
    out.push('\t');
    out.append(escaped.as_str());
    out.push('\n');
    proof {
        assert(out@ =~= before + field_row(key@, value@) + seq!['\n']);
    }
}

impl StoredLicense {
    /// The licence that a text stands for, if it stands for one.
    pub fn parse(contents: &str) -> (r: Option<Self>)
        ensures
            match r {
                Some(l) => parsed_license(contents@) == Some(l@),
                None => parsed_license(contents@) is None,
            },
    {
        let all = lines(contents);
        let ghost list = texts(all@);
        let mut f = Fields {
            license_key: None,
            instance_id: None,
            product_id: None,
            license_status: None,
            customer_email: None,
            last_validated_unix_ms: None,
        };
        let mut i: usize = 0;
        proof {
            assert(list.take(0) =~= Seq::<Seq<char>>::empty());
        }
        while i < all.len()
            invariant
                i <= all@.len(),
                list == texts(all@),
                list == lines_of(contents@),
                fields_of(list.take(i as int)) == Some(f.model()),
            decreases all@.len() - i,
        {
            proof {
                assert(list.take(i + 1).drop_last() =~= list.take(i as int));
                assert(list.take(i + 1).last() == all@[i as int]@);
            }
            if let Some((key, value)) = split_once(all[i].as_str(), '\t') {
                match unescape_field(value.as_str()) {
                    Some(text) => {
                        f.take_field(key.as_str(), text);
                    },
                    None => {
                        proof {
                            malformed_stays_malformed(list, i + 1);
                        }
                        return None;
                    },
                }
            }
            i = i + 1;
        }
        proof {
            assert(list.take(list.len() as int) =~= list);
        }
        let license_key = match f.license_key {
            Some(v) => v,
            None => {
                return None;
            },
        };
        let instance_id = match f.instance_id {
            Some(v) => v,
            None => {
                return None;
            },
        };
        let product_id: u64 = match f.product_id {
            Some(v) => v,
            None => {
                return None;
            },
        };
        if is_blank(license_key.as_str()) || is_blank(instance_id.as_str()) {
            return None;
        }
        let license_status = match f.license_status {
            Some(v) => v,
            None => owned("active"),
        };
        let last_validated_unix_ms: u64 = match f.last_validated_unix_ms {
            Some(v) => v,
            None => 0,
        };
        Some(
            StoredLicense {
                license_key,
                instance_id,
                product_id,
                license_status,
                customer_email: f.customer_email,
                last_validated_unix_ms,
            },
        )
    }

    /// The licence that is stored, given the text of the store if there is one.
    pub fn load(contents: Option<&str>) -> (r: Option<Self>)
        ensures
            match (contents, r) {
                (Some(text), Some(l)) => parsed_license(text@) == Some(l@),
                (Some(text), None) => parsed_license(text@) is None,
                (None, Some(l)) => false,
                (None, None) => true,
            },
    {
        match contents {
            Some(text) => Self::parse(text),
            None => None,
        }
    }

    /// The text to store.
    pub fn serialize(&self) -> (r: String)
        ensures
            r@ == joined(license_lines(self@)),
    {
        let ghost l = license_lines(self@);
        let mut out = String::new();
        let product = decimal(self.product_id);
        let validated = decimal(self.last_validated_unix_ms);
        proof {
            reveal_strlit("");
            assert(""@ =~= Seq::<char>::empty());
            assert(out@ =~= joined(Seq::<Seq<char>>::empty()));
        }
        push_field(&mut out, "license_key", self.license_key.as_str());
        proof {
            assert(l.take(0) =~= Seq::<Seq<char>>::empty());
            step_joined(l, 0);
        }
        push_field(&mut out, "instance_id", self.instance_id.as_str());
        proof {
            step_joined(l, 1);
        }
        push_field(&mut out, "product_id", product.as_str());
        proof {
            step_joined(l, 2);
        }
        push_field(&mut out, "license_status", self.license_status.as_str());
        proof {
            step_joined(l, 3);
        }
        match &self.customer_email {
            Some(email) => {
                push_field(&mut out, "customer_email", email.as_str());
            },
            None => {
                push_field(&mut out, "customer_email", "");
            },
        }
        proof {
            step_joined(l, 4);
        }
        push_field(&mut out, "last_validated_unix_ms", validated.as_str());
        proof {
            step_joined(l, 5);
            assert(l.take(6) =~= l);
        }
        out
    }
}

proof fn step_joined(l: Seq<Seq<char>>, k: int)
    requires
        0 <= k < l.len(),
    ensures
        joined(l.take(k + 1)) == joined(l.take(k)) + l[k] + seq!['\n'],
{
    assert(l.take(k + 1) =~= l.take(k).push(l[k]));
    joined_push(l.take(k), l[k]);
}

proof fn malformed_stays_malformed(lines: Seq<Seq<char>>, n: int)
    requires
        0 <= n <= lines.len(),
        fields_of(lines.take(n)) is None,
    ensures
        fields_of(lines) is None,
    decreases lines.len() - n,
{
    if n == lines.len() {
        assert(lines.take(n) =~= lines);
    } else {
        assert(lines.take(n + 1).drop_last() =~= lines.take(n));
        malformed_stays_malformed(lines, n + 1);
    }
}

/// Whether a licence can be stored: key and instance are not blank, and an
/// address that is there is not empty.
pub open spec fn is_storable(l: LicenseModel) -> bool {
    &&& trim_seq(l.license_key).len() > 0
    &&& trim_seq(l.instance_id).len() > 0
    &&& (l.customer_email matches Some(e) ==> e.len() > 0)
}

proof fn row_is_read(f: FieldsRead, key: Seq<char>, value: Seq<char>)
    requires
        lacks(key, '\t'),
        lacks(key, '\n'),
        key.len() > 0,
    ensures
        f.after(field_row(key, value)) == Some(f.with_field(key, value)),
        is_plain_line(field_row(key, value)),
{
    let e = escape_seq(value);
    escape_is_clean(value);
    unescape_of_escape(value);
    split_once_of_join(key, '\t', e);
    let row = field_row(key, value);
    assert forall|k: int| 0 <= k < row.len() implies row[k] != '\n' by {
        if k > key.len() {
            assert(row[k] == e[k - key.len() - 1]);
        }
    }
    if e.len() > 0 {
        assert(row.last() == e.last());
    }
}

proof fn key_shapes()
    ensures
        "license_key"@.len() == 11,
        "instance_id"@.len() == 11,
        "product_id"@.len() == 10,
        "license_status"@.len() == 14,
        "customer_email"@.len() == 14,
        "last_validated_unix_ms"@.len() == 22,
        "license_key"@[0] == 'l',
        "instance_id"@[0] == 'i',
        "license_status"@[0] == 'l',
        "customer_email"@[0] == 'c',
        lacks("license_key"@, '\t') && lacks("license_key"@, '\n'),
        lacks("instance_id"@, '\t') && lacks("instance_id"@, '\n'),
        lacks("product_id"@, '\t') && lacks("product_id"@, '\n'),
        lacks("license_status"@, '\t') && lacks("license_status"@, '\n'),
        lacks("customer_email"@, '\t') && lacks("customer_email"@, '\n'),
        lacks("last_validated_unix_ms"@, '\t') && lacks("last_validated_unix_ms"@, '\n'),
{
    reveal_strlit("license_key");
    reveal_strlit("instance_id");
    reveal_strlit("product_id");
    reveal_strlit("license_status");
    reveal_strlit("customer_email");
    reveal_strlit("last_validated_unix_ms");
}

/// A stored licence is read back as it was.
pub proof fn stored_license_is_read_back(l: LicenseModel)
    requires
        is_storable(l),
    ensures
        parsed_license(joined(license_lines(l))) == Some(l),
{
    let all = license_lines(l);
    key_shapes();
    parse_of_digits(l.product_id);
    parse_of_digits(l.last_validated_unix_ms);
    let email = match l.customer_email {
        Some(e) => e,
        None => Seq::empty(),
    };
    let f0 = nothing_read();
    row_is_read(f0, "license_key"@, l.license_key);
    let f1 = f0.with_field("license_key"@, l.license_key);
    row_is_read(f1, "instance_id"@, l.instance_id);
    let f2 = f1.with_field("instance_id"@, l.instance_id);
    row_is_read(f2, "product_id"@, digits(l.product_id as nat));
    let f3 = f2.with_field("product_id"@, digits(l.product_id as nat));
    row_is_read(f3, "license_status"@, l.license_status);
    let f4 = f3.with_field("license_status"@, l.license_status);
    row_is_read(f4, "customer_email"@, email);
    let f5 = f4.with_field("customer_email"@, email);
    row_is_read(f5, "last_validated_unix_ms"@, digits(l.last_validated_unix_ms as nat));
    let f6 = f5.with_field("last_validated_unix_ms"@, digits(l.last_validated_unix_ms as nat));
    assert(all.take(0) =~= Seq::<Seq<char>>::empty());
    fields_step(all, 0);
    fields_step(all, 1);
    fields_step(all, 2);
    fields_step(all, 3);
    fields_step(all, 4);
    fields_step(all, 5);
    assert(all.take(6) =~= all);
    assert(fields_of(all) == Some(f6));
    assert(f6.license() == Some(l));
    lines_of_joined(all);
}

proof fn fields_step(lines: Seq<Seq<char>>, k: int)
    requires
        0 <= k < lines.len(),
    ensures
        fields_of(lines.take(k + 1)) == (match fields_of(lines.take(k)) {
            Some(f) => f.after(lines[k]),
            None => None,
        }),
{
    assert(lines.take(k + 1).drop_last() =~= lines.take(k));
}

/// The development switch wins over whatever is stored.
pub proof fn override_wins(value: Seq<char>, stored: Option<LicenseModel>, now_ms: u64)
    requires
        is_switched_on(value),
    ensures
        detected_state(Some(value), stored, now_ms) == override_state(),
{
}

/// Without the development switch only a licence of this product whose status
/// allows it gives the paid tier.
pub proof fn pro_needs_a_good_license(
    dev_override: Option<Seq<char>>,
    stored: Option<LicenseModel>,
    now_ms: u64,
)
    requires
        !(dev_override matches Some(value) && is_switched_on(value)),
    ensures
        detected_state(dev_override, stored, now_ms).tier == LicenseTier::Pro <==> (
        stored matches Some(l) && l.product_id == FASTPLAY_PRO_PRODUCT_ID && allows_pro(
            l.license_status,
        )),
{
}

/// A licence of this product that is active or inactive gives the paid tier. It says
/// so plainly for fourteen days after it was last validated, and as a grace after that;
/// one that was never validated counts as fresh.
pub proof fn good_license_says_how_fresh_it_is(l: LicenseModel, now_ms: u64)
    requires
        l.product_id == 1_195_401,
        l.license_status == "active"@ || l.license_status == "inactive"@,
    ensures
        ({
            let s = stored_state(l, now_ms);
            let fresh = l.last_validated_unix_ms == 0 || now_ms <= l.last_validated_unix_ms + 14
                * 24 * 60 * 60 * 1000;
            &&& s.tier == LicenseTier::Pro
            &&& (fresh ==> s.source == LicenseSource::StoredLicense && s.status_label
                == "FastPlay Pro"@)
            &&& (!fresh ==> s.source == LicenseSource::OfflineGrace && s.status_label
                == "FastPlay Pro (offline grace)"@)
        }),
{
}

/// Any other licence, and none, give the free tier: one of another product, and one of
/// another status, say so and ask for a validation.
pub proof fn other_licenses_give_the_free_tier(l: LicenseModel, now_ms: u64)
    requires
        l.product_id != 1_195_401 || (l.license_status != "active"@ && l.license_status
            != "inactive"@),
    ensures
        stored_state(l, now_ms).tier == LicenseTier::Free,
        stored_state(l, now_ms).source == LicenseSource::NeedsValidation,
        detected_state(None, None, now_ms).tier == LicenseTier::Free,
        detected_state(None, None, now_ms).source == LicenseSource::Free,
        detected_state(None, Some(l), now_ms) == stored_state(l, now_ms),
{
}

/// The message of a decision tells the status by the first of the known words that it
/// holds, in whatever case; without any of them the licence is invalid.
pub proof fn message_tells_the_status(message: Seq<char>)
    ensures
        ({
            let m = lower_seq(message);
            let disabled = contains_seq(m, "disabled"@);
            let expired = contains_seq(m, "expired"@);
            let refunded = contains_seq(m, "refunded"@);
            let revoked = contains_seq(m, "revoked"@);
            let status = status_in_message(message);
            &&& (disabled ==> status == "disabled"@)
            &&& (!disabled && expired ==> status == "expired"@)
            &&& (!disabled && !expired && refunded ==> status == "refunded"@)
            &&& (!disabled && !expired && !refunded && revoked ==> status == "revoked"@)
            &&& (!disabled && !expired && !refunded && !revoked ==> status == "invalid"@)
        }),
{
}

/// A refused deactivation is settled where the message says that the activation is
/// gone already, and not otherwise.
pub proof fn message_tells_that_nothing_is_left(message: Seq<char>)
    ensures
        says_already_gone(message) <==> {
            let m = lower_seq(message);
            ||| contains_seq(m, "already deactivated"@)
            ||| contains_seq(m, "already been deactivated"@)
            ||| contains_seq(m, "activation not found"@)
            ||| contains_seq(m, "instance not found"@)
            ||| contains_seq(m, "activation does not exist"@)
            ||| contains_seq(m, "instance does not exist"@)
        },
{
}

/// The development switch is on for five words, white space around them aside.
pub proof fn switch_is_on_for_known_words(value: Seq<char>)
    ensures
        is_switched_on(value) <==> {
            let v = trim_seq(value);
            ||| v == "1"@
            ||| v == "true"@
            ||| v == "TRUE"@
            ||| v == "yes"@
            ||| v == "YES"@
        },
        allows_pro("active"@),
        allows_pro("inactive"@),
{
}

/// A licence is read where its key, its instance and its product are there and not
/// blank; what else is missing has its usual value.
pub proof fn missing_fields_have_their_usual_values(
    key: Seq<char>,
    instance: Seq<char>,
    product: u64,
)
    ensures
        ({
            let bare = FieldsRead {
                license_key: Some(key),
                instance_id: Some(instance),
                product_id: Some(product),
                license_status: None,
                customer_email: None,
                last_validated_unix_ms: None,
            };
            let whole = trim_seq(key).len() > 0 && trim_seq(instance).len() > 0;
            &&& (whole ==> bare.license() == Some(
                LicenseModel {
                    license_key: key,
                    instance_id: instance,
                    product_id: product,
                    license_status: "active"@,
                    customer_email: None,
                    last_validated_unix_ms: 0,
                },
            ))
            &&& (!whole ==> bare.license() is None)
            &&& (FieldsRead { license_key: None, ..bare }).license() is None
            &&& (FieldsRead { instance_id: None, ..bare }).license() is None
            &&& (FieldsRead { product_id: None, ..bare }).license() is None
        }),
{
}

/// A status keeps its letters, digits, underscores, hyphens and spaces, and loses
/// every other character; what is shown of it has at most 40 characters, and a blank
/// one is invalid.
pub proof fn status_keeps_its_plain_characters(s: Seq<char>, c: char)
    ensures
        ({
            let plain = ('a' <= c <= 'z') || ('A' <= c <= 'Z') || ('0' <= c <= '9') || c == '_'
                || c == '-' || c == ' ';
            &&& (plain ==> status_chars(s.push(c)) == status_chars(s).push(c))
            &&& (!plain ==> status_chars(s.push(c)) == status_chars(s))
            &&& status_chars(Seq::empty()).len() == 0
        }),
        cleaned_status(s).len() <= 40,
        status_chars(trim_seq(s)).len() <= 40 ==> cleaned_status(s) == trim_seq(
            status_chars(trim_seq(s)),
        ),
        trim_seq(s).len() == 0 ==> status_label(s) == "invalid"@ && denied_status(s)
            == "invalid"@,
        cleaned_status(s).len() > 0 && trim_seq(s).len() > 0 ==> denied_status(s)
            == cleaned_status(s) && status_label(s) == cleaned_status(s),
        cleaned_status(s).len() == 0 ==> denied_status(s) == "invalid"@,
{
    assert(s.push(c).drop_last() =~= s);
    let kept = take_at_most(status_chars(trim_seq(s)), 40);
    let _ = trim_seq_shape(kept);
}

} // verus!

//! Tablet descriptions (the identifiers and pen limits of a configuration
//! file), the order in which connected devices are tried against them, and
//! the initialisation reports a matched device is sent.
use crate::parsers::{create_parser, parser_for_name, AnyParser};
use vstd::prelude::*;
use vstd::string::*;

verus! {

/// The limits of the pen shipped with a tablet.
#[derive(Debug, Clone)]
pub struct PenSpecs {
    /// The largest pressure value the pen reports.
    pub max_pressure: u16,
    /// The number of barrel buttons, when the configuration gives it.
    pub button_count: Option<u8>,
}

/// How a tablet is found on the bus and which parser reads its packets.
#[derive(Debug, Clone)]
pub struct DigitizerIdentifier {
    pub vendor_id: u16,
    pub product_id: u16,
    /// The length of the packets the tablet sends, when known.
    pub input_report_length: Option<usize>,
    pub output_report_length: Option<usize>,
    /// The configured report parser (an OpenTabletDriver class name).
    pub report_parser: String,
    /// Base64 packets written to the device to wake it up.
    pub output_init_report: Option<Vec<String>>,
    /// Base64 feature reports that switch the device to its tablet mode.
    pub feature_init_report: Option<Vec<String>>,
}

/// Backend-specific overrides of a configuration.
#[derive(Debug, Clone)]
pub struct Attributes {
    pub libinputoverride: Option<String>,
}

// ---------------------------------------------------------------------------
// The parser of a configuration
// ---------------------------------------------------------------------------

/// A configuration's parser is named by its first identifier; a
/// configuration without identifiers names none.
pub open spec fn configured_parser_name(identifiers: Seq<DigitizerIdentifier>) -> Seq<char> {
    if identifiers.len() > 0 {
        identifiers[0].report_parser@
    } else {
        Seq::empty()
    }
}

pub fn parser_name_of(identifiers: &Vec<DigitizerIdentifier>) -> (name: &str)
    ensures
        name@ == configured_parser_name(identifiers@),
{
    if identifiers.len() > 0 {
        identifiers[0].report_parser.as_str()
    } else {
        proof {
            reveal_strlit("");
        }
        ""
    }
}

/// The parser a driver built from these identifiers reads packets with.
pub fn parser_for_identifiers(identifiers: &Vec<DigitizerIdentifier>) -> (p: AnyParser)
    ensures
        p == parser_for_name(configured_parser_name(identifiers@)),
{
    create_parser(parser_name_of(identifiers))
}

// ---------------------------------------------------------------------------
// Detection order
// ---------------------------------------------------------------------------

/// A candidate pairs configuration `t.0`, its identifier `t.1` and
/// connected device `t.2` (vendor id, product id) whose ids match.
pub open spec fn is_candidate(
    configs: Seq<Vec<DigitizerIdentifier>>,
    devices: Seq<(u16, u16)>,
    t: (usize, usize, usize),
) -> bool {
    &&& t.0 < configs.len()
    &&& t.1 < configs[t.0 as int]@.len()
    &&& t.2 < devices.len()
    &&& devices[t.2 as int].0 == configs[t.0 as int]@[t.1 as int].vendor_id
    &&& devices[t.2 as int].1 == configs[t.0 as int]@[t.1 as int].product_id
}

/// `a` comes before `b`: configurations first, then identifiers, then devices.
pub open spec fn tried_before(a: (usize, usize, usize), b: (usize, usize, usize)) -> bool {
    a.0 < b.0 || (a.0 == b.0 && (a.1 < b.1 || (a.1 == b.1 && a.2 < b.2)))
}

/// The candidates in the order a scan tries them: every candidate once,
/// in increasing order.
pub open spec fn is_scan_order(
    configs: Seq<Vec<DigitizerIdentifier>>,
    devices: Seq<(u16, u16)>,
    r: Seq<(usize, usize, usize)>,
) -> bool {
    &&& forall|k: int| 0 <= k < r.len() ==> is_candidate(configs, devices, #[trigger] r[k])
    &&& forall|t: (usize, usize, usize)| is_candidate(configs, devices, t) ==> r.contains(t)
    &&& forall|i: int, j: int| 0 <= i < j < r.len() ==> tried_before(r[i], r[j])
}

/// The candidates found so far, when the scan stands at `pos`.
spec fn scanned_up_to(
    configs: Seq<Vec<DigitizerIdentifier>>,
    devices: Seq<(u16, u16)>,
    r: Seq<(usize, usize, usize)>,
    pos: (usize, usize, usize),
) -> bool {
    &&& forall|k: int|
        0 <= k < r.len() ==> is_candidate(configs, devices, #[trigger] r[k]) && tried_before(
            r[k],
            pos,
        )
    &&& forall|t: (usize, usize, usize)|
        is_candidate(configs, devices, t) && tried_before(t, pos) ==> r.contains(t)
    &&& forall|i: int, j: int| 0 <= i < j < r.len() ==> tried_before(r[i], r[j])
}

/// Every (configuration, identifier, device) triple whose ids match, in the
/// order a detection scan tries them.
pub fn detection_candidates(
    configs: &Vec<Vec<DigitizerIdentifier>>,
    devices: &Vec<(u16, u16)>,
) -> (r: Vec<(usize, usize, usize)>)
    ensures
        is_scan_order(configs@, devices@, r@),
{
    let mut r: Vec<(usize, usize, usize)> = Vec::new();
    let mut c: usize = 0;
    while c < configs.len()
        invariant
            c <= configs@.len(),
            scanned_up_to(configs@, devices@, r@, (c, 0, 0)),
        decreases configs@.len() - c,
    {
        let ids = &configs[c];
        let mut d: usize = 0;
        while d < ids.len()
            invariant
                c < configs@.len(),
                *ids == configs@[c as int],
                d <= ids@.len(),
                scanned_up_to(configs@, devices@, r@, (c, d, 0)),
            decreases ids@.len() - d,
        {
            let vendor = ids[d].vendor_id;
            let product = ids[d].product_id;
            let mut v: usize = 0;
            while v < devices.len()
                invariant
                    c < configs@.len(),
                    *ids == configs@[c as int],
                    d < ids@.len(),
                    vendor == ids@[d as int].vendor_id,
                    product == ids@[d as int].product_id,
                    v <= devices@.len(),
                    scanned_up_to(configs@, devices@, r@, (c, d, v)),
                decreases devices@.len() - v,
            {
                let ghost old_r = r@;
                if devices[v].0 == vendor && devices[v].1 == product {
                    r.push((c, d, v));
                    assert forall|t: (usize, usize, usize)|
                        is_candidate(configs@, devices@, t) && tried_before(
                            t,
                            (c, d, (v + 1) as usize),
                        ) implies r@.contains(t) by {
                        if t == (c, d, v) {
                            assert(r@[old_r.len() as int] == t);
                        } else {
                            assert(old_r.contains(t));
                            let k = choose|k: int| 0 <= k < old_r.len() && old_r[k] == t;
                            assert(r@[k] == t);
                        }
                    }
                } else {
                    assert forall|t: (usize, usize, usize)|
                        is_candidate(configs@, devices@, t) && tried_before(
                            t,
                            (c, d, (v + 1) as usize),
                        ) implies r@.contains(t) by {
                        if t == (c, d, v) {
                            assert(false);
                        }
                    }
                }
                v = v + 1;
            }
            d = d + 1;
        }
        c = c + 1;
    }
    r
}

// ---------------------------------------------------------------------------
// Initialisation reports
// ---------------------------------------------------------------------------

#[verifier::external_type_specification]
#[verifier::external_body]
pub struct ExDecodeError(base64::DecodeError);

/// The bytes the standard Base64 alphabet (with padding) decodes `text` to,
/// or `None` where `text` is not such an encoding.
pub uninterp spec fn standard_base64(text: Seq<char>) -> Option<Seq<u8>>;

/// Decodes `text` with `base64::engine::general_purpose::STANDARD`.
/// Trusted: the result, and whether there is one, is what `standard_base64`
/// names for the characters of `text`; the call does not panic.
#[verifier::external_body]
fn decode_standard_base64(text: &str) -> (r: Result<Vec<u8>, base64::DecodeError>)
    ensures
        match r {
            Ok(bytes) => standard_base64(text@) == Some(bytes@),
            Err(_) => standard_base64(text@) is None,
        },
{
    base64::Engine::decode(&base64::engine::general_purpose::STANDARD, text)
}

/// Which kind of report an initialisation packet is sent as.
#[derive(Debug, Clone, Copy, PartialEq, Eq, Structural)]
pub enum ReportKind {
    /// Sent with `send_feature_report`.
    Feature,
    /// Written to the device.
    Output,
}

/// Why a device could not be initialised by the library's own doing.
#[derive(Debug, Clone, Copy, PartialEq, Eq, Structural)]
pub enum InitError {
    /// A configured report is not valid Base64.
    Base64(ReportKind),
}

/// A configured report as Base64 bytes.
pub fn decode_init_report(text: &str, kind: ReportKind) -> (r: Result<Vec<u8>, InitError>)
    ensures
        match standard_base64(text@) {
            Some(bytes) => r matches Ok(v) && v@ == bytes,
            None => r == Err::<Vec<u8>, InitError>(InitError::Base64(kind)),
        },
{
    match decode_standard_base64(text) {
        Ok(bytes) => Ok(bytes),
        Err(_) => Err(InitError::Base64(kind)),
    }
}

/// The reports of one kind, in configuration order.
pub open spec fn reports_of(reports: Option<Vec<String>>, kind: ReportKind) -> Seq<
    (ReportKind, Seq<char>),
> {
    match reports {
        Some(v) => Seq::new(v@.len(), |i: int| (kind, v@[i]@)),
        None => Seq::empty(),
    }
}

/// The reports a matched device is sent, in order: the feature reports,
/// then the output reports.
pub open spec fn init_reports(id: DigitizerIdentifier) -> Seq<(ReportKind, Seq<char>)> {
    reports_of(id.feature_init_report, ReportKind::Feature) + reports_of(
        id.output_init_report,
        ReportKind::Output,
    )
}

/// A device is sent every feature report, in configuration order, before
/// every output report, in configuration order, and nothing else.
pub proof fn lemma_feature_reports_go_first(id: DigitizerIdentifier)
    ensures
        ({
            let f = reports_of(id.feature_init_report, ReportKind::Feature);
            let o = reports_of(id.output_init_report, ReportKind::Output);
            &&& init_reports(id).len() == f.len() + o.len()
            &&& id.feature_init_report matches Some(v) ==> f.len() == v@.len() && forall|i: int|
                0 <= i < v@.len() ==> #[trigger] init_reports(id)[i] == (
                    ReportKind::Feature,
                    v@[i]@,
                )
            &&& id.feature_init_report is None ==> f.len() == 0
            &&& id.output_init_report matches Some(v) ==> o.len() == v@.len() && forall|i: int|
                0 <= i < v@.len() ==> #[trigger] init_reports(id)[f.len() + i] == (
                    ReportKind::Output,
                    v@[i]@,
                )
            &&& id.output_init_report is None ==> o.len() == 0
        }),
{
}

/// The next step of initialising a device.
pub enum InitAction {
    /// Send these bytes as a report of this kind.
    Send(ReportKind, Vec<u8>),
    /// Every report was sent.
    Finished,
    /// The next report cannot be decoded: the device is skipped.
    Failed(InitError),
}

/// What to do after `sent` reports of `id` went out: decode and send the
/// next one, or stop.
pub fn next_init_action(id: &DigitizerIdentifier, sent: usize) -> (a: InitAction)
    ensures
        ({
            let reports = init_reports(*id);
            if sent >= reports.len() {
                a is Finished
            } else {
                let (kind, text) = reports[sent as int];
                match standard_base64(text) {
                    Some(bytes) => a matches InitAction::Send(k, data) && k == kind && data@
                        == bytes,
                    None => a matches InitAction::Failed(e) && e == InitError::Base64(kind),
                }
            }
        }),
{
    let n_feature: usize = match &id.feature_init_report {
        Some(v) => v.len(),
        None => 0,
    };
    let (kind, index) = if sent < n_feature {
        (ReportKind::Feature, sent)
    } else {
        (ReportKind::Output, sent - n_feature)
    };
    let list = match kind {
        ReportKind::Feature => &id.feature_init_report,
        ReportKind::Output => &id.output_init_report,
    };
    match list {
        Some(v) => {
            if index < v.len() {
                match decode_init_report(v[index].as_str(), kind) {
                    Ok(bytes) => InitAction::Send(kind, bytes),
                    Err(e) => InitAction::Failed(e),
                }
            } else {
                InitAction::Finished
            }
        },
        None => InitAction::Finished,
    }
}

/// What a detection scan does after trying its candidate number `k`.
#[derive(Debug, Clone, Copy, PartialEq, Eq, Structural)]
pub enum DetectAction {
    /// The candidate opened and initialised: it is the tablet.
    Accept(usize),
    /// Try the next candidate.
    Try(usize),
    /// No candidate is left: no tablet is found.
    GiveUp,
}

/// The scan keeps the first of its `n` candidates that opens and
/// initialises (`ok`), and otherwise moves on until none is left.
pub fn after_attempt(k: usize, n: usize, ok: bool) -> (a: DetectAction)
    ensures
        a == (if ok {
            DetectAction::Accept(k)
        } else if k + 1 < n {
            DetectAction::Try((k + 1) as usize)
        } else {
            DetectAction::GiveUp
        }),
{
    if ok {
        DetectAction::Accept(k)
    } else if k < n && k + 1 < n {
        DetectAction::Try(k + 1)
    } else {
        DetectAction::GiveUp
    }
}

/// Whether a configuration named `name` is new: no configuration read
/// earlier bears that name.
pub fn is_new_config_name(seen: &Vec<String>, name: &String) -> (r: bool)
    ensures
        r == !(exists|i: int| 0 <= i < seen@.len() && (#[trigger] seen@[i])@ == name@),
{
    let mut i: usize = 0;
    while i < seen.len()
        invariant
            i <= seen@.len(),
            forall|j: int| 0 <= j < i ==> (#[trigger] seen@[j])@ != name@,
        decreases seen@.len() - i,
    {
        if seen[i] == *name {
            return false;
        }
        i = i + 1;
    }
    true
}

} // verus!

//! The setup checkpoint the frame records in non-volatile storage, and its
//! nine-byte encoding.

use vstd::prelude::*;
use crate::state::{AppPhase, AppState, NetworkPhase};
use crate::text::{owned, push_str};

verus! {

/// Length of an encoded record.
pub const STATE_RECORD_LEN: usize = 9;

/// Format version written into every record.
pub const STATE_VERSION: u8 = 1;

pub const FLAG_OWNER_PRESENT: u8 = 1;
pub const FLAG_PAIRING_CODE_PRESENT: u8 = 2;
pub const FLAG_BROWSER_VERIFIED: u8 = 4;
pub const FLAG_AUTH_CODE_PRESENT: u8 = 8;
pub const FLAG_LOCAL_SETUP_URL_PRESENT: u8 = 16;

/// How far setup had got when the record was written.
#[derive(Clone, Copy, Debug, PartialEq, Eq, Structural)]
pub enum SetupCheckpoint {
    BootStarted,
    SplashRendered,
    SetupRendered,
    OwnerRestored,
    Provisioning,
    NetworkConnected,
    LocalSetupReady,
    AwaitingBrowserPair,
    BrowserPairVerified,
    DeviceCodeReady,
    AuthorizationComplete,
    Ready,
}

impl SetupCheckpoint {
    /// The byte a checkpoint is stored as: 1 to 12 in declaration order.
    pub open spec fn code(self) -> u8 {
        match self {
            SetupCheckpoint::BootStarted => 1,
            SetupCheckpoint::SplashRendered => 2,
            SetupCheckpoint::SetupRendered => 3,
            SetupCheckpoint::OwnerRestored => 4,
            SetupCheckpoint::Provisioning => 5,
            SetupCheckpoint::NetworkConnected => 6,
            SetupCheckpoint::LocalSetupReady => 7,
            SetupCheckpoint::AwaitingBrowserPair => 8,
            SetupCheckpoint::BrowserPairVerified => 9,
            SetupCheckpoint::DeviceCodeReady => 10,
            SetupCheckpoint::AuthorizationComplete => 11,
            SetupCheckpoint::Ready => 12,
        }
    }

    /// The checkpoint's name in logs.
    pub open spec fn name(self) -> Seq<char> {
        match self {
            SetupCheckpoint::BootStarted => "boot-started"@,
            SetupCheckpoint::SplashRendered => "splash-rendered"@,
            SetupCheckpoint::SetupRendered => "setup-rendered"@,
            SetupCheckpoint::OwnerRestored => "owner-restored"@,
            SetupCheckpoint::Provisioning => "provisioning"@,
            SetupCheckpoint::NetworkConnected => "network-connected"@,
            SetupCheckpoint::LocalSetupReady => "local-setup-ready"@,
            SetupCheckpoint::AwaitingBrowserPair => "awaiting-browser-pair"@,
            SetupCheckpoint::BrowserPairVerified => "browser-pair-verified"@,
            SetupCheckpoint::DeviceCodeReady => "device-code-ready"@,
            SetupCheckpoint::AuthorizationComplete => "authorization-complete"@,
            SetupCheckpoint::Ready => "ready"@,
        }
    }

    pub fn as_str(self) -> (s: &'static str)
        ensures
            s@ == self.name(),
    {
        match self {
            SetupCheckpoint::BootStarted => "boot-started",
            SetupCheckpoint::SplashRendered => "splash-rendered",
            SetupCheckpoint::SetupRendered => "setup-rendered",
            SetupCheckpoint::OwnerRestored => "owner-restored",
            SetupCheckpoint::Provisioning => "provisioning",
            SetupCheckpoint::NetworkConnected => "network-connected",
            SetupCheckpoint::LocalSetupReady => "local-setup-ready",
            SetupCheckpoint::AwaitingBrowserPair => "awaiting-browser-pair",
            SetupCheckpoint::BrowserPairVerified => "browser-pair-verified",
            SetupCheckpoint::DeviceCodeReady => "device-code-ready",
            SetupCheckpoint::AuthorizationComplete => "authorization-complete",
            SetupCheckpoint::Ready => "ready",
        }
    }

    /// The byte this checkpoint is stored as.
    pub fn to_byte(self) -> (b: u8)
        ensures
            b == self.code(),
    {
        match self {
            SetupCheckpoint::BootStarted => 1,
            SetupCheckpoint::SplashRendered => 2,
            SetupCheckpoint::SetupRendered => 3,
            SetupCheckpoint::OwnerRestored => 4,
            SetupCheckpoint::Provisioning => 5,
            SetupCheckpoint::NetworkConnected => 6,
            SetupCheckpoint::LocalSetupReady => 7,
            SetupCheckpoint::AwaitingBrowserPair => 8,
            SetupCheckpoint::BrowserPairVerified => 9,
            SetupCheckpoint::DeviceCodeReady => 10,
            SetupCheckpoint::AuthorizationComplete => 11,
            SetupCheckpoint::Ready => 12,
        }
    }

    /// The checkpoint stored as `value`, if any: exactly the bytes 1 to 12.
    pub fn from_byte(value: u8) -> (c: Option<Self>)
        ensures
            (1 <= value <= 12) <==> c is Some,
            c matches Some(cp) ==> cp.code() == value,
    {
        match value {
            1 => Some(SetupCheckpoint::BootStarted),
            2 => Some(SetupCheckpoint::SplashRendered),
            3 => Some(SetupCheckpoint::SetupRendered),
            4 => Some(SetupCheckpoint::OwnerRestored),
            5 => Some(SetupCheckpoint::Provisioning),
            6 => Some(SetupCheckpoint::NetworkConnected),
            7 => Some(SetupCheckpoint::LocalSetupReady),
            8 => Some(SetupCheckpoint::AwaitingBrowserPair),
            9 => Some(SetupCheckpoint::BrowserPairVerified),
            10 => Some(SetupCheckpoint::DeviceCodeReady),
            11 => Some(SetupCheckpoint::AuthorizationComplete),
            12 => Some(SetupCheckpoint::Ready),
            _ => None,
        }
    }
}

/// The byte an application phase is stored as.
pub open spec fn app_phase_code(p: AppPhase) -> u8 {
    match p {
        AppPhase::Splash => 1,
        AppPhase::Setup => 2,
        AppPhase::Ready => 3,
    }
}

/// The byte a network phase is stored as. Byte 3 belonged to a phase that no
/// longer exists and is never written.
pub open spec fn network_phase_code(p: NetworkPhase) -> u8 {
    match p {
        NetworkPhase::Unprovisioned => 1,
        NetworkPhase::Provisioning => 2,
        NetworkPhase::Connected => 4,
    }
}

pub fn encode_app_phase(phase: &AppPhase) -> (b: u8)
    ensures
        b == app_phase_code(*phase),
{
    match phase {
        AppPhase::Splash => 1,
        AppPhase::Setup => 2,
        AppPhase::Ready => 3,
    }
}

pub fn decode_app_phase(value: u8) -> (p: Option<AppPhase>)
    ensures
        (1 <= value <= 3) <==> p is Some,
        p matches Some(phase) ==> app_phase_code(phase) == value,
{
    match value {
        1 => Some(AppPhase::Splash),
        2 => Some(AppPhase::Setup),
        3 => Some(AppPhase::Ready),
        _ => None,
    }
}

pub fn encode_network_phase(phase: &NetworkPhase) -> (b: u8)
    ensures
        b == network_phase_code(*phase),
{
    match phase {
        NetworkPhase::Unprovisioned => 1,
        NetworkPhase::Provisioning => 2,
        NetworkPhase::Connected => 4,
    }
}

pub fn decode_network_phase(value: u8) -> (p: Option<NetworkPhase>)
    ensures
        (value == 1 || value == 2 || value == 4) <==> p is Some,
        p matches Some(phase) ==> network_phase_code(phase) == value,
{
    match value {
        1 => Some(NetworkPhase::Unprovisioned),
        2 => Some(NetworkPhase::Provisioning),
        4 => Some(NetworkPhase::Connected),
        _ => None,
    }
}

/// One stored checkpoint.
#[derive(Clone, Copy, Debug, PartialEq, Eq, Structural)]
pub struct PersistedSetupState {
    pub checkpoint: SetupCheckpoint,
    pub app_phase: AppPhase,
    pub network_phase: NetworkPhase,
    pub flags: u8,
}

/// Why stored bytes are not a checkpoint record.
#[derive(Debug, PartialEq, Eq)]
pub enum SetupStateError {
    UnexpectedLength(usize),
    UnexpectedMagic,
    UnsupportedVersion(u8),
    InvalidCheckpoint(u8),
    InvalidAppPhase(u8),
    InvalidNetworkPhase(u8),
}

/// The record's bytes: the magic `FSTS`, the version, then the checkpoint,
/// application phase, network phase and flags.
pub open spec fn encoding(s: PersistedSetupState) -> Seq<u8> {
    seq![
        'F' as u8,
        'S' as u8,
        'T' as u8,
        'S' as u8,
        STATE_VERSION,
        s.checkpoint.code(),
        app_phase_code(s.app_phase),
        network_phase_code(s.network_phase),
        s.flags,
    ]
}

/// What decoding `bytes` gives: the first failed check, in the order length,
/// magic, version, checkpoint, application phase, network phase.
pub open spec fn decoding(bytes: Seq<u8>) -> Result<PersistedSetupState, SetupStateError> {
    if bytes.len() != STATE_RECORD_LEN {
        Err(SetupStateError::UnexpectedLength(bytes.len() as usize))
    } else if bytes.subrange(0, 4) != seq!['F' as u8, 'S' as u8, 'T' as u8, 'S' as u8] {
        Err(SetupStateError::UnexpectedMagic)
    } else if bytes[4] != STATE_VERSION {
        Err(SetupStateError::UnsupportedVersion(bytes[4]))
    } else if !(1 <= bytes[5] <= 12) {
        Err(SetupStateError::InvalidCheckpoint(bytes[5]))
    } else if !(1 <= bytes[6] <= 3) {
        Err(SetupStateError::InvalidAppPhase(bytes[6]))
    } else if !(bytes[7] == 1 || bytes[7] == 2 || bytes[7] == 4) {
        Err(SetupStateError::InvalidNetworkPhase(bytes[7]))
    } else {
        Ok(
            PersistedSetupState {
                checkpoint: choose|c: SetupCheckpoint| c.code() == bytes[5],
                app_phase: choose|p: AppPhase| app_phase_code(p) == bytes[6],
                network_phase: choose|p: NetworkPhase| network_phase_code(p) == bytes[7],
                flags: bytes[8],
            },
        )
    }
}

/// The labels of the flags that are set, in bit order.
pub open spec fn flag_labels(flags: u8) -> Seq<Seq<char>> {
    let l0 = Seq::<Seq<char>>::empty();
    let l1 = if flags & FLAG_OWNER_PRESENT != 0 { l0.push("owner"@) } else { l0 };
    let l2 = if flags & FLAG_PAIRING_CODE_PRESENT != 0 { l1.push("pairing-code"@) } else { l1 };
    let l3 = if flags & FLAG_BROWSER_VERIFIED != 0 { l2.push("browser-verified"@) } else { l2 };
    let l4 = if flags & FLAG_AUTH_CODE_PRESENT != 0 { l3.push("auth-code"@) } else { l3 };
    if flags & FLAG_LOCAL_SETUP_URL_PRESENT != 0 { l4.push("local-url"@) } else { l4 }
}

/// The labels joined with commas.
pub open spec fn comma_joined(labels: Seq<Seq<char>>) -> Seq<char>
    decreases labels.len(),
{
    if labels.len() == 0 {
        Seq::empty()
    } else if labels.len() == 1 {
        labels[0]
    } else {
        comma_joined(labels.drop_last()) + ","@ + labels.last()
    }
}

/// `none`, or the set flags' labels joined with commas.
pub open spec fn flags_text(flags: u8) -> Seq<char> {
    if flag_labels(flags).len() == 0 {
        "none"@
    } else {
        comma_joined(flag_labels(flags))
    }
}

fn append_label(s: &mut String, labels: Ghost<Seq<Seq<char>>>, first: bool, label: &str)
    requires
        old(s)@ == comma_joined(labels@),
        first == (labels@.len() == 0),
    ensures
        final(s)@ == comma_joined(labels@.push(label@)),
{
    let ghost l = labels@.push(label@);
    assert(l.drop_last() =~= labels@);
    if first {
        assert(s@ =~= Seq::<char>::empty());
    } else {
        push_str(s, ",");
    }
    push_str(s, label);
    if first {
        assert(s@ =~= label@);
    }
}

/// The setup checkpoint recorded for each network phase the frame reaches.
pub open spec fn network_checkpoint(phase: NetworkPhase) -> SetupCheckpoint {
    match phase {
        NetworkPhase::Provisioning => SetupCheckpoint::Provisioning,
        NetworkPhase::Connected => SetupCheckpoint::NetworkConnected,
        NetworkPhase::Unprovisioned => SetupCheckpoint::SetupRendered,
    }
}

/// The checkpoint to record once the network phase is known.
pub fn checkpoint_for_network_phase(phase: NetworkPhase) -> (c: SetupCheckpoint)
    ensures
        c == network_checkpoint(phase),
{
    match phase {
        NetworkPhase::Provisioning => SetupCheckpoint::Provisioning,
        NetworkPhase::Connected => SetupCheckpoint::NetworkConnected,
        NetworkPhase::Unprovisioned => SetupCheckpoint::SetupRendered,
    }
}

impl PersistedSetupState {
    /// The record for `app_state` at `checkpoint`.
    ///
    /// The application state carries no owner, pairing code, authorisation
    /// code or setup address, so of the flags only browser verification can
    /// be set here.
    pub fn from_app_state(
        checkpoint: SetupCheckpoint,
        app_state: &AppState,
        browser_verified: bool,
    ) -> (s: Self)
        ensures
            s.checkpoint == checkpoint,
            s.app_phase == app_state.phase,
            s.network_phase == app_state.network_phase,
            s.flags == if browser_verified { FLAG_BROWSER_VERIFIED } else { 0 },
    {
        let mut flags: u8 = 0;
        if browser_verified {
            flags = flags | FLAG_BROWSER_VERIFIED;
        }
        assert(0u8 | 4u8 == 4u8) by (bit_vector);
        PersistedSetupState {
            checkpoint,
            app_phase: app_state.phase,
            network_phase: app_state.network_phase,
            flags,
        }
    }

    /// The set flags' labels joined with commas, or `none`.
    pub fn flags_summary(&self) -> (s: String)
        ensures
            s@ == flags_text(self.flags),
    {
        let flags = self.flags;
        let mut s = String::new();
        let ghost mut labels = Seq::<Seq<char>>::empty();
        let mut any = false;
        assert(s@ =~= comma_joined(labels));
        if flags & FLAG_OWNER_PRESENT != 0 {
            append_label(&mut s, Ghost(labels), !any, "owner");
            any = true;
            proof {
                labels = labels.push("owner"@);
            }
        }
        if flags & FLAG_PAIRING_CODE_PRESENT != 0 {
            append_label(&mut s, Ghost(labels), !any, "pairing-code");
            any = true;
            proof {
                labels = labels.push("pairing-code"@);
            }
        }
        if flags & FLAG_BROWSER_VERIFIED != 0 {
            append_label(&mut s, Ghost(labels), !any, "browser-verified");
            any = true;
            proof {
                labels = labels.push("browser-verified"@);
            }
        }
        if flags & FLAG_AUTH_CODE_PRESENT != 0 {
            append_label(&mut s, Ghost(labels), !any, "auth-code");
            any = true;
            proof {
                labels = labels.push("auth-code"@);
            }
        }
        if flags & FLAG_LOCAL_SETUP_URL_PRESENT != 0 {
            append_label(&mut s, Ghost(labels), !any, "local-url");
            any = true;
            proof {
                labels = labels.push("local-url"@);
            }
        }
        assert(labels =~= flag_labels(flags));
        if !any {
            return owned("none");
        }
        s
    }

    /// The nine bytes this record is stored as.
    pub fn encode(&self) -> (bytes: [u8; 9])
        ensures
            bytes@ == encoding(*self),
    {
        let bytes = [
            'F' as u8,
            'S' as u8,
            'T' as u8,
            'S' as u8,
            STATE_VERSION,
            self.checkpoint.to_byte(),
            encode_app_phase(&self.app_phase),
            encode_network_phase(&self.network_phase),
            self.flags,
        ];
        assert(bytes@ =~= encoding(*self));
        bytes
    }

    /// Reads a record, refusing the wrong length, magic or version, and any
    /// byte that names no checkpoint or phase.
    pub fn decode(bytes: &[u8]) -> (r: Result<Self, SetupStateError>)
        ensures
            r == decoding(bytes@),
    {
        if bytes.len() != STATE_RECORD_LEN {
            return Err(SetupStateError::UnexpectedLength(bytes.len()));
        }
        if bytes[0] != 'F' as u8 || bytes[1] != 'S' as u8 || bytes[2] != 'T' as u8 || bytes[3]
            != 'S' as u8 {
            proof {
                if bytes@.subrange(0, 4) == seq!['F' as u8, 'S' as u8, 'T' as u8, 'S' as u8] {
                    assert(bytes@[0] == bytes@.subrange(0, 4)[0]);
                    assert(bytes@[1] == bytes@.subrange(0, 4)[1]);
                    assert(bytes@[2] == bytes@.subrange(0, 4)[2]);
                    assert(bytes@[3] == bytes@.subrange(0, 4)[3]);
                }
            }
            return Err(SetupStateError::UnexpectedMagic);
        }
        assert(bytes@.subrange(0, 4) =~= seq!['F' as u8, 'S' as u8, 'T' as u8, 'S' as u8]);
        if bytes[4] != STATE_VERSION {
            return Err(SetupStateError::UnsupportedVersion(bytes[4]));
        }
        let checkpoint = match SetupCheckpoint::from_byte(bytes[5]) {
            Some(c) => c,
            None => {
                return Err(SetupStateError::InvalidCheckpoint(bytes[5]));
            },
        };
        let app_phase = match decode_app_phase(bytes[6]) {
            Some(p) => p,
            None => {
                return Err(SetupStateError::InvalidAppPhase(bytes[6]));
            },
        };
        let network_phase = match decode_network_phase(bytes[7]) {
            Some(p) => p,
            None => {
                return Err(SetupStateError::InvalidNetworkPhase(bytes[7]));
            },
        };
        proof {
            lemma_codes_injective();
        }
        Ok(PersistedSetupState { checkpoint, app_phase, network_phase, flags: bytes[8] })
    }
}

/// Distinct checkpoints and phases are stored as distinct bytes.
pub proof fn lemma_codes_injective()
    ensures
        forall|a: SetupCheckpoint, b: SetupCheckpoint| a.code() == b.code() ==> a == b,
        forall|a: AppPhase, b: AppPhase| app_phase_code(a) == app_phase_code(b) ==> a == b,
        forall|a: NetworkPhase, b: NetworkPhase|
            network_phase_code(a) == network_phase_code(b) ==> a == b,
{
}

/// Reading back a written record gives the same record.
pub proof fn lemma_decode_encode(s: PersistedSetupState)
    ensures
        decoding(encoding(s)) == Ok::<PersistedSetupState, SetupStateError>(s),
{
    lemma_codes_injective();
    let b = encoding(s);
    assert(b.subrange(0, 4) =~= seq!['F' as u8, 'S' as u8, 'T' as u8, 'S' as u8]);
    let c = choose|c: SetupCheckpoint| c.code() == b[5];
    assert(s.checkpoint.code() == b[5]);
    let a = choose|p: AppPhase| app_phase_code(p) == b[6];
    assert(app_phase_code(s.app_phase) == b[6]);
    let n = choose|p: NetworkPhase| network_phase_code(p) == b[7];
    assert(network_phase_code(s.network_phase) == b[7]);
}

/// A record that reads back successfully is written as the same bytes.
pub proof fn lemma_encode_decode(bytes: Seq<u8>)
    requires
        decoding(bytes) is Ok,
    ensures
        encoding(decoding(bytes)->Ok_0) == bytes,
{
    let s = decoding(bytes)->Ok_0;
    let c = choose|c: SetupCheckpoint| c.code() == bytes[5];
    assert(exists|c: SetupCheckpoint| c.code() == bytes[5]) by {
        let w = match bytes[5] {
            1 => SetupCheckpoint::BootStarted,
            2 => SetupCheckpoint::SplashRendered,
            3 => SetupCheckpoint::SetupRendered,
            4 => SetupCheckpoint::OwnerRestored,
            5 => SetupCheckpoint::Provisioning,
            6 => SetupCheckpoint::NetworkConnected,
            7 => SetupCheckpoint::LocalSetupReady,
            8 => SetupCheckpoint::AwaitingBrowserPair,
            9 => SetupCheckpoint::BrowserPairVerified,
            10 => SetupCheckpoint::DeviceCodeReady,
            11 => SetupCheckpoint::AuthorizationComplete,
            _ => SetupCheckpoint::Ready,
        };
        assert(w.code() == bytes[5]);
    }
    assert(exists|p: AppPhase| app_phase_code(p) == bytes[6]) by {
        let w = if bytes[6] == 1 {
            AppPhase::Splash
        } else if bytes[6] == 2 {
            AppPhase::Setup
        } else {
            AppPhase::Ready
        };
        assert(app_phase_code(w) == bytes[6]);
    }
    assert(exists|p: NetworkPhase| network_phase_code(p) == bytes[7]) by {
        let w = if bytes[7] == 1 {
            NetworkPhase::Unprovisioned
        } else if bytes[7] == 2 {
            NetworkPhase::Provisioning
        } else {
            NetworkPhase::Connected
        };
        assert(network_phase_code(w) == bytes[7]);
    }
    assert(bytes[0] == bytes.subrange(0, 4)[0]);
    assert(bytes[1] == bytes.subrange(0, 4)[1]);
    assert(bytes[2] == bytes.subrange(0, 4)[2]);
    assert(bytes[3] == bytes.subrange(0, 4)[3]);
    assert(encoding(s) =~= bytes);
}

} // verus!

//! The client session: a lazily connected rich-presence IPC client handle,
//! together with the command surface that submits, clears and tears down an
//! activity through it.
//!
//! The session models its observable behaviour with a ghost counter of the
//! connection attempts made and a ghost log of the submissions handed to
//! the client. An existing handle is reused, a failed connection attempt
//! leaves no handle behind, and tearing the session down is an error-free
//! no-op when no handle exists.
use vstd::prelude::*;

use crate::payload::{ActivityDescriptorView, ActivityPayload, AssetSet, TimestampRange,
    build_descriptor, spec_descriptor};
use crate::text::prefixed;
use discord_rich_presence::DiscordIpc;
use discord_rich_presence::DiscordIpcClient;
use discord_rich_presence::activity::{Activity, Assets, Timestamps};

verus! {

/// Relies on discord_rich_presence::DiscordIpcClient: the IPC client handle
/// is carried through the session as an opaque value.
#[verifier::external_type_specification]
#[verifier::external_body]
pub struct ExDiscordIpcClient(DiscordIpcClient);

/// Relies on discord_rich_presence::activity::Timestamps: an assembled
/// timestamp range is carried as an opaque value.
#[verifier::external_type_specification]
#[verifier::external_body]
pub struct ExTimestamps(Timestamps);

/// Relies on discord_rich_presence::activity::Assets: an assembled asset
/// group is carried as an opaque value.
#[verifier::external_type_specification]
#[verifier::external_body]
pub struct ExAssets<'a>(Assets<'a>);

/// Relies on DiscordIpcClient::new: constructs an unconnected client bound
/// to the given application id; the error, should one arise, is rendered as
/// its description.
#[verifier::external_body]
fn client_new(client_id: &str) -> (r: Result<DiscordIpcClient, String>) {
    DiscordIpcClient::new(client_id).map_err(|e| e.to_string())
}

/// Relies on DiscordIpc::connect: opens the local IPC channel and performs
/// the handshake; nothing is promised of the outcome.
#[verifier::external_body]
fn client_connect(c: &mut DiscordIpcClient) -> (r: Result<(), String>) {
    c.connect().map_err(|e| e.to_string())
}

/// Relies on the Timestamps builder (new, start, end): each present bound
/// is attached to a fresh timestamp range.
#[verifier::external_body]
fn make_timestamps(t: &TimestampRange) -> (r: Timestamps) {
    let mut ts = Timestamps::new();
    if let Some(s) = t.start {
        ts = ts.start(s);
    }
    if let Some(e) = t.end {
        ts = ts.end(e);
    }
    ts
}

/// Relies on the Assets builder (new, large_image, large_text, small_image,
/// small_text): each present field is attached to a fresh asset group.
#[verifier::external_body]
fn make_assets<'a>(a: &'a AssetSet) -> (r: Assets<'a>) {
    let mut s = Assets::new();
    if let Some(v) = &a.large_image {
        s = s.large_image(v);
    }
    if let Some(v) = &a.large_text {
        s = s.large_text(v);
    }
    if let Some(v) = &a.small_image {
        s = s.small_image(v);
    }
    if let Some(v) = &a.small_text {
        s = s.small_text(v);
    }
    s
}

/// Relies on the Activity builder (new, details, state, timestamps, assets)
/// and DiscordIpc::set_activity: each present part is attached verbatim and
/// the assembled activity is submitted over the IPC channel; nothing is
/// promised of the outcome.
#[verifier::external_body]
fn client_set_activity<'a>(
    c: &mut DiscordIpcClient,
    details: Option<&'a String>,
    state: Option<&'a String>,
    timestamps: Option<Timestamps>,
    assets: Option<Assets<'a>>,
) -> (r: Result<(), String>) {
    let mut a = Activity::new();
    if let Some(d) = details {
        a = a.details(d);
    }
    if let Some(s) = state {
        a = a.state(s);
    }
    if let Some(t) = timestamps {
        a = a.timestamps(t);
    }
    if let Some(x) = assets {
        a = a.assets(x);
    }
    c.set_activity(a).map_err(|e| e.to_string())
}

/// Relies on DiscordIpc::clear_activity: requests clearing of the displayed
/// activity over the IPC channel; nothing is promised of the outcome.
#[verifier::external_body]
fn client_clear_activity(c: &mut DiscordIpcClient) -> (r: Result<(), String>) {
    c.clear_activity().map_err(|e| e.to_string())
}

/// Relies on DiscordIpc::close: closes the IPC connection; nothing is
/// promised of the outcome.
#[verifier::external_body]
fn client_close(c: &mut DiscordIpcClient) -> (r: Result<(), String>) {
    c.close().map_err(|e| e.to_string())
}

/// Everything a command can fail with, each kind carrying the description
/// the underlying call produced.
#[derive(Debug)]
pub enum RpcError {
    /// The configured application id is empty.
    ConfigMissing,
    /// Constructing the client failed.
    InitFailed(String),
    /// Opening the connection or handshaking failed.
    ConnectFailed(String),
    /// Submitting an activity failed.
    SetActivityFailed(String),
    /// Requesting the clearing of an activity failed.
    ClearActivityFailed(String),
}

impl RpcError {
    /// The message a caller of the command surface receives.
    pub open spec fn spec_message(&self) -> Seq<char> {
        match self {
            RpcError::ConfigMissing => "DISCORD_CLIENT_ID no configurado"@,
            RpcError::InitFailed(e) => "RPC init error: "@ + e@,
            RpcError::ConnectFailed(e) => "RPC connect error: "@ + e@,
            RpcError::SetActivityFailed(e) => "RPC set_activity error: "@ + e@,
            RpcError::ClearActivityFailed(e) => "RPC clear_activity error: "@ + e@,
        }
    }

    /// Renders the error as the message a caller of the command surface
    /// receives.
    pub fn message(&self) -> (m: String)
        ensures
            m@ == self.spec_message(),
    {
        match self {
            RpcError::ConfigMissing => "DISCORD_CLIENT_ID no configurado".to_owned(),
            RpcError::InitFailed(e) => prefixed("RPC init error: ", e.as_str()),
            RpcError::ConnectFailed(e) => prefixed("RPC connect error: ", e.as_str()),
            RpcError::SetActivityFailed(e) => prefixed("RPC set_activity error: ", e.as_str()),
            RpcError::ClearActivityFailed(e) => prefixed("RPC clear_activity error: ", e.as_str()),
        }
    }
}

/// One submission handed to the client: either an activity descriptor to
/// set, or the request to clear the displayed activity.
pub ghost enum SubmitEvent {
    SetActivity(ActivityDescriptorView),
    ClearActivity,
}

/// The process-wide client session: an application id fixed at construction
/// and an optional live client handle, created on first use.
///
/// A ghost counter records the connection attempts made, and a ghost log
/// records every submission handed to the client, so that contracts can
/// speak of the session's outside side effects.
pub struct RpcSession {
    client_id: String,
    client: Option<DiscordIpcClient>,
    connects: Ghost<nat>,
    log: Ghost<Seq<SubmitEvent>>,
}

impl RpcSession {
    /// The application id the session was configured with.
    pub closed spec fn id(&self) -> Seq<char> {
        self.client_id@
    }

    /// Whether the required application id is absent (empty).
    pub open spec fn id_missing(&self) -> bool {
        self.id().len() == 0
    }

    /// Whether a live client handle is stored.
    pub closed spec fn connected(&self) -> bool {
        self.client is Some
    }

    /// How many connection attempts the session has made.
    pub closed spec fn connect_count(&self) -> nat {
        self.connects@
    }

    /// Every submission the session has handed to the client, oldest first.
    pub closed spec fn submissions(&self) -> Seq<SubmitEvent> {
        self.log@
    }

    /// How many submissions (set or clear) the session has handed to the
    /// client.
    pub open spec fn submit_count(&self) -> nat {
        self.submissions().len()
    }

    /// Creates a session bound to the given application id, with no client
    /// handle and no side effect yet.
    pub fn new(client_id: String) -> (s: Self)
        ensures
            s.id() == client_id@,
            !s.connected(),
            s.connect_count() == 0,
            s.submissions() == Seq::<SubmitEvent>::empty(),
    {
        RpcSession { client_id, client: None, connects: Ghost(0), log: Ghost(Seq::empty()) }
    }

    /// Whether a live client handle is stored.
    pub fn is_connected(&self) -> (b: bool)
        ensures
            b == self.connected(),
    {
        self.client.is_some()
    }

    /// Takes a connected client handle out of the session, lazily
    /// constructing and connecting one when none is stored. The caller puts
    /// the handle back once done with it.
    fn obtain_client(&mut self) -> (r: Result<DiscordIpcClient, RpcError>)
        ensures
            final(self).id() == old(self).id(),
            final(self).submissions() == old(self).submissions(),
            (r matches Err(e) && e is ConfigMissing) <==> old(self).id_missing(),
            old(self).id_missing() ==> *final(self) == *old(self),
            !old(self).id_missing() ==> !final(self).connected(),
            !old(self).id_missing() && old(self).connected() ==> r is Ok && final(self).connect_count() == old(self).connect_count(),
            !old(self).id_missing() && !old(self).connected() ==> final(self).connect_count()
                == old(self).connect_count() + 1,
            !old(self).id_missing() ==> (r matches Err(e) ==> !old(self).connected() && (
            e is InitFailed || e is ConnectFailed)),
    {
        if self.client_id.as_str().is_empty() {
            return Err(RpcError::ConfigMissing);
        }
        match self.client.take() {
            Some(c) => Ok(c),
            None => {
                self.connects = Ghost(self.connects@ + 1);
                match client_new(self.client_id.as_str()) {
                    Ok(mut c) => match client_connect(&mut c) {
                        Ok(_) => Ok(c),
                        Err(m) => Err(RpcError::ConnectFailed(m)),
                    },
                    Err(m) => Err(RpcError::InitFailed(m)),
                }
            },
        }
    }

    /// Translates the payload into a descriptor and submits it through the
    /// session's client, connecting first when no handle is stored.
    ///
    /// A submission is attempted for every payload — also one with every
    /// field absent — whenever a connected handle could be obtained; an
    /// already stored handle is reused without a new connection attempt; a
    /// missing application id fails the command before any side effect.
    pub fn set_activity(&mut self, payload: ActivityPayload) -> (r: Result<(), RpcError>)
        ensures
            final(self).id() == old(self).id(),
            (r matches Err(e) && e is ConfigMissing) <==> old(self).id_missing(),
            old(self).id_missing() ==> *final(self) == *old(self),
            !old(self).id_missing() && old(self).connected() ==> final(self).connect_count()
                == old(self).connect_count(),
            !old(self).id_missing() && !old(self).connected() ==> final(self).connect_count()
                == old(self).connect_count() + 1,
            r is Ok || (r matches Err(e) && e is SetActivityFailed) <==> final(self).submissions() == old(self).submissions().push(
                SubmitEvent::SetActivity(spec_descriptor(payload@)),
            ),
            r is Ok || (r matches Err(e) && e is SetActivityFailed) ==> final(self).connected(),
            r matches Err(e) && !(e is SetActivityFailed) ==> final(self).submissions() == old(self).submissions(),
            r matches Err(e) && (e is InitFailed || e is ConnectFailed) ==> !final(self).connected(),
            r matches Err(e) ==> !(e is ClearActivityFailed),
    {
        let d = build_descriptor(payload);
        let mut c = match self.obtain_client() {
            Ok(c) => c,
            Err(e) => {
                proof {
                    assert(old(self).submissions().push(
                        SubmitEvent::SetActivity(spec_descriptor(payload@)),
                    ).len() == old(self).submissions().len() + 1);
                }
                return Err(e);
            },
        };
        self.log = Ghost(self.log@.push(SubmitEvent::SetActivity(d@)));
        let ts: Option<Timestamps> = match &d.timestamps {
            Some(t) => Some(make_timestamps(t)),
            None => None,
        };
        let ar: Option<Assets> = match &d.assets {
            Some(a) => Some(make_assets(a)),
            None => None,
        };
        let res = client_set_activity(&mut c, d.details.as_ref(), d.state.as_ref(), ts, ar);
        self.client = Some(c);
        match res {
            Ok(_) => Ok(()),
            Err(m) => Err(RpcError::SetActivityFailed(m)),
        }
    }

    /// Requests clearing of the displayed activity through the session's
    /// client, connecting first when no handle is stored. Clearing needs no
    /// prior successful submission.
    pub fn clear_activity(&mut self) -> (r: Result<(), RpcError>)
        ensures
            final(self).id() == old(self).id(),
            (r matches Err(e) && e is ConfigMissing) <==> old(self).id_missing(),
            old(self).id_missing() ==> *final(self) == *old(self),
            !old(self).id_missing() && old(self).connected() ==> final(self).connect_count()
                == old(self).connect_count(),
            !old(self).id_missing() && !old(self).connected() ==> final(self).connect_count()
                == old(self).connect_count() + 1,
            r is Ok || (r matches Err(e) && e is ClearActivityFailed) <==> final(self).submissions() == old(self).submissions().push(SubmitEvent::ClearActivity),
            r is Ok || (r matches Err(e) && e is ClearActivityFailed) ==> final(self).connected(),
            r matches Err(e) && !(e is ClearActivityFailed) ==> final(self).submissions() == old(self).submissions(),
            r matches Err(e) && (e is InitFailed || e is ConnectFailed) ==> !final(self).connected(),
            r matches Err(e) ==> !(e is SetActivityFailed),
    {
        let mut c = match self.obtain_client() {
            Ok(c) => c,
            Err(e) => {
                proof {
                    assert(old(self).submissions().push(SubmitEvent::ClearActivity).len()
                        == old(self).submissions().len() + 1);
                }
                return Err(e);
            },
        };
        self.log = Ghost(self.log@.push(SubmitEvent::ClearActivity));
        let res = client_clear_activity(&mut c);
        self.client = Some(c);
        match res {
            Ok(_) => Ok(()),
            Err(m) => Err(RpcError::ClearActivityFailed(m)),
        }
    }

    /// Tears the session down: a stored handle is taken out, its connection
    /// closed best-effort with any close failure swallowed, and the handle
    /// discarded. With no handle stored this is a no-op; either way the
    /// command succeeds.
    pub fn disconnect(&mut self)
        ensures
            final(self).id() == old(self).id(),
            !final(self).connected(),
            final(self).connect_count() == old(self).connect_count(),
            final(self).submissions() == old(self).submissions(),
            !old(self).connected() ==> *final(self) == *old(self),
    {
        match self.client.take() {
            Some(mut c) => {
                let _ = client_close(&mut c);
            },
            None => {},
        }
    }
}

} // verus!

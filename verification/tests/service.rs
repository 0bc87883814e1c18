//! Whole exchanges: sessions are greeted, leased, lost and resumed, and their records are served.

use std::collections::HashSet;

use vivid_protocol::anchor::{self, AnchorKey};
use vivid_protocol::auth::{self, Secret32};
use vivid_protocol::cbor::Value;
use vivid_protocol::grant;
use vivid_protocol::lease::CleanupPolicy;
use vivid_protocol::media::raster_frame_body;
use vivid_protocol::geometry::NodeGeometry;
use vivid_protocol::messages::{
    decode_control, parse_error_reply, ChannelOpen, Envelope, Hello, HelloAuthentication,
    LaneClass, PayloadMap, TrackKind, Welcome,
};
use vivid_protocol::observation::OBSERVATION_SEQUENCE_KEY;
use vivid_protocol::registry as profiles;
use vivid_protocol::surface::{
    CoordinateModel, DesktopSurfaceParameters, SurfaceDefinition, SurfaceDescriptor, SurfaceRole,
};
use vivid_protocol::scene::{Fit, SceneNode};
use vivid_protocol::track::{
    KindConfiguration, RasterConfiguration, TrackConfiguration, TrackDirection, TrackMode,
};
use vivid_protocol::wire::{encode_preface, ConnectionKind};
use vivido::actor::{
    Egress, NextRecord, PendingSet, TrackWaitEvaluation, TrackWaitSatisfied,
};
use vivido::anchor::AnchorMarker;
use vivido::bucket::MARKER_ADMISSION_RATE;
use vivido::channel::{tell_track_lost, Channel, ChannelRecord, ChannelStep};
use vivido::context::{
    OP_DELEGATE, OP_DESKTOP_INPUT, OP_OBSERVE, OP_RECEIVE_FILE_DROP, OP_SCENE,
    OP_SURFACE_TRACK_MEDIA, OP_TERMINAL_ANCHOR,
};
use vivido::contract::{Resource, RESOURCE_COUNT};
use vivido::dispatch::{
    after_record, dispatch_and_reply, dispatch_control, traced_track_control, AfterRecord,
    ControlRecord, Question, Step, TraceCategory,
};
use vivido::drop_control::{
    bind_drops, deliver_offer, queue_cancellations, suggest_name, UNNAMED_FILE,
};
use vivido::drop_manager::FileDropManager;
use vivido::establish::{
    draw_root, establish_root_session, examine, greet, publish, welcome_failed, Entropy, Greeting,
    PresenterRoot, Principal, Target,
};
use vivido::failure::{ChannelFailure, ChannelFailureKind, ChannelRecordContext};
use vivido::file_drop::{CancelFileDrop, FileSource};
use vivido::identity::{SessionIdentity, SurfaceIdentity, TrackIdentity};
use vivido::input::{InputEvent, InputRequest, INPUT_CLASS_KEYBOARD};
use vivido::lane_control::{lane_accepted, LaneStep};
use vivido::observe::{drain_observations, CLASS_SURFACE, SURFACE_CHANGED_LIFECYCLE};
use vivido::opening::{check_channel, confirm_channel};
use vivido::outputs::AudioOutputs;
use vivido::playback_control::{
    answer_ping, answer_playback, answer_wait, begin_drain, check_pause, read_cancellation,
    read_flush, read_play, set_observation, DrainStep, PlayRequest, PLAY_RATE,
};
use vivido::profile::SessionRefusal;
use vivido::protocol;
use vivido::registry::{Departure, Registry, SessionEnd, MAX_SESSIONS};
use vivido::scene_control::{
    answer_abort, answer_anchor_query, answer_commit, answer_scene_query, answer_scene_request,
    answer_session_query, ended_transaction, read_commit_plan, target_change_body,
    CommitRejection, SceneStatus, SessionStatus,
};
use vivido::session::SurfaceInput;
use vivido::surface_control::{
    answer_destroyed_surface, answer_surface, answer_surface_query, answer_update,
    desktop_capability_mask, read_update, SurfaceStatus,
};
use vivido::text::encode_hex;
use vivido::transfer::{FirstRecordRefusal, OpenRejection};
use vivido::transfer_control::TransferRefusal;
use vivido::track::{read_track, supports_track, MAXIMUM_AUDIO_GAIN, SLOT_RASTER};
use vivido::track_control::{
    activated_tracks, answer_activation, answer_advance, answer_destroyed_track, answer_gain,
    answer_probe, answer_track, answer_track_query, check_advance, check_support, TrackStatus,
};

/// The lifecycle of a surface that shows something.
const ACTIVE: u64 = 1;

struct Service {
    registry: Registry,
    manager: FileDropManager,
    cancelled: HashSet<u64>,
    root: PresenterRoot,
    target: Target,
    now_us: u64,
    next_nonce: u8,
}

struct Client {
    session_id: u64,
    session_tag: [u8; 16],
    channel_key: [u8; 32],
    resume_key: [u8; 32],
    anchor_key: [u8; 32],
    departure: Departure,
    contract: Vec<u64>,
    accepted_profiles: Vec<String>,
    context_id: u64,
}

fn sorted(names: &[&str]) -> Vec<String> {
    let mut names: Vec<String> = names.iter().map(|name| (*name).to_owned()).collect();
    names.sort();
    names
}

fn preface() -> [u8; 16] {
    encode_preface(ConnectionKind::Control, vivid_protocol::CONTROL_MAX_RECORD_BODY)
}

impl Service {
    fn new(profile: &str, supported: &[&str], classes: u64) -> Self {
        Self {
            registry: Registry::new(),
            manager: FileDropManager::new(),
            cancelled: HashSet::new(),
            root: draw_root().unwrap(),
            target: Target {
                profile: profile.to_owned(),
                generation: 1,
                descriptor: vec![(0, Value::Unsigned(1))],
                supported_profiles: sorted(supported),
                root_operation_classes: classes,
            },
            now_us: 1_000_000,
            next_nonce: 0,
        }
    }

    fn terminal() -> Self {
        Self::new(
            profiles::TERMINAL_SURFACE,
            &[
                profiles::CORE_CONTROL,
                profiles::TERMINAL_SURFACE,
                profiles::LIVE_MEDIA,
                profiles::TIMED_MEDIA,
                profiles::OBSERVABILITY,
                profiles::FILE_DROP,
            ],
            OP_OBSERVE
                | OP_SURFACE_TRACK_MEDIA
                | OP_SCENE
                | OP_TERMINAL_ANCHOR
                | OP_DELEGATE
                | OP_RECEIVE_FILE_DROP,
        )
    }

    fn desktop() -> Self {
        Self::new(
            profiles::DESKTOP_SURFACE,
            &[
                profiles::CORE_CONTROL,
                profiles::DESKTOP_SURFACE,
                profiles::LIVE_MEDIA,
                profiles::DESKTOP_INPUT,
                profiles::OBSERVABILITY,
                profiles::WEB_CARRIER,
            ],
            OP_OBSERVE | OP_SURFACE_TRACK_MEDIA | OP_SCENE | OP_DESKTOP_INPUT | OP_DELEGATE,
        )
    }

    fn hello(&self, authentication: HelloAuthentication) -> Hello {
        Hello {
            producer_name: "raw".into(),
            producer_version: "0".into(),
            required_profiles: sorted(&[profiles::CORE_CONTROL, &self.target.profile]),
            optional_profiles: Vec::new(),
            maximum_control_body: vivid_protocol::CONTROL_MAX_RECORD_BODY,
            client_nonce: [0x3c; 32],
            authentication,
            target_profile: self.target.profile.clone(),
            extensions: Vec::new(),
        }
    }

    /// Greet a producer, without yet publishing its session.
    fn greeted(&mut self, hello: &Hello) -> Result<vivido::establish::Established, SessionRefusal> {
        let body = hello.encode(1).unwrap();
        let greeting = Greeting::read(&body).unwrap();
        greet(
            &mut self.registry,
            &self.root,
            &preface(),
            &self.target,
            &greeting,
            self.now_us,
        )
        .unwrap()
    }

    fn open(&mut self, hello: &Hello, secret: &[u8; 32]) -> Result<Client, SessionRefusal> {
        let established = self.greeted(hello)?;
        let (_, welcome) = Welcome::decode(&established.welcome).unwrap();
        let prk = auth::extract_handshake_prk(
            &Secret32::new(*secret),
            &hello.client_nonce,
            &welcome.server_nonce,
            &[0; 32],
        );
        let (keys, anchor_key) = auth::derive_session_keys(
            &prk,
            welcome.session_id,
            welcome.resume_generation,
            &welcome.session_tag,
        );
        let client = Client {
            session_id: welcome.session_id,
            session_tag: welcome.session_tag,
            channel_key: *keys.channel_key(),
            resume_key: *keys.resume_key(),
            anchor_key: *anchor_key.as_bytes(),
            departure: Departure::of(&established.session),
            contract: contract_values(&welcome.resource_contract),
            accepted_profiles: welcome.accepted_profiles.clone(),
            context_id: welcome.root_context_id,
        };
        assert_eq!(client.channel_key, established.session.channel_key);
        publish(&mut self.registry, established.session, self.now_us);
        Ok(client)
    }

    /// A root hello with a nonce of its own.
    fn root_hello(&mut self) -> Hello {
        let mut hello = self.hello(HelloAuthentication::Root { proof: [0; 32] });
        self.next_nonce += 1;
        hello.client_nonce[0] = self.next_nonce;
        hello
    }

    fn sign_root(&self, hello: &mut Hello) {
        hello.authenticate_root(&Secret32::new(self.root.secret), &preface()).unwrap();
    }

    fn connect(&mut self) -> Client {
        let mut hello = self.root_hello();
        self.sign_root(&mut hello);
        let secret = self.root.secret;
        self.open(&hello, &secret).unwrap()
    }

    fn activate(
        &mut self,
        context_id: u64,
        lease_id: u64,
        secret: &[u8; 32],
    ) -> Result<Client, SessionRefusal> {
        let hello = self.hello(HelloAuthentication::LeaseActivation {
            context_id,
            lease_id,
            activation_secret: Secret32::new(*secret),
            attempt_id: [0x5a; 16],
            proof_of_possession: None,
        });
        self.open(&hello, secret)
    }

    fn resume(
        &mut self,
        context_id: u64,
        lease_id: u64,
        session_id: u64,
        generation: u64,
        prior: &[u8; 32],
    ) -> Result<Client, SessionRefusal> {
        let mut hello = self.hello(HelloAuthentication::Resume {
            context_id,
            lease_id,
            session_id,
            resume_generation: generation,
            attempt_id: [0x6b; 16],
            proof: [0; 32],
        });
        hello.authenticate_resume(prior, &preface()).unwrap();
        self.open(&hello, prior)
    }

    /// Serve one control record of a session.
    fn serve(&mut self, client: &Client, record_type: u16, object_id: u64, body: Vec<u8>) -> Step {
        self.registry.admit_post_hello(client.session_id);
        let supported = self.target.supported_profiles.clone();
        dispatch_control(
            &mut self.registry,
            &mut self.manager,
            &mut self.cancelled,
            client.session_id,
            &supported,
            &ControlRecord { record_type, flags: 0, object_id, body },
            self.now_us,
        )
    }

    fn request(
        &mut self,
        client: &Client,
        record_type: u16,
        object_id: u64,
        payload: PayloadMap,
    ) -> Step {
        let body = Envelope::new(2, payload).encode().unwrap();
        self.serve(client, record_type, object_id, body)
    }

    /// Ask for a session's status, the way a producer closes its activation window.
    fn query_session(&mut self, client: &Client) -> PayloadMap {
        match self.request(client, protocol::QUERY_SESSION, 0, vec![]) {
            Step::Ask(Question::Session, envelope) => {
                let status = SessionStatus {
                    session_revision: 1,
                    scene_revision: 0,
                    target_generation: 1,
                    entries: vec![],
                    resource_usage: Value::Map(vec![]),
                };
                let record = match answer_session_query(status, envelope.request_id) {
                    Ok(record) => record,
                    Err(error) => panic!("{}", error.message),
                };
                assert_eq!(record.0, protocol::SESSION_STATUS);
                decode_control(&record.2).unwrap().payload
            },
            _ => panic!("the question was not asked"),
        }
    }

    fn lease(&mut self, client: &Client, definition: &vivid_protocol::lease::SessionLeaseDefinition) {
        let step = self.request(
            client,
            protocol::CREATE_SESSION_LEASE,
            definition.lease_id,
            definition.payload().unwrap(),
        );
        match step {
            Step::Answer(record) => assert_eq!(record.0, protocol::SESSION_LEASE_READY),
            Step::Refuse(error) => panic!("{}", error.message),
            _ => panic!("the lease was not answered"),
        }
    }

    /// A session's transport went away without a farewell.
    fn lose(&mut self, client: &Client) -> SessionEnd {
        self.registry.finish_session(&client.departure, false, self.now_us).end
    }

    fn egress(&mut self, client: &Client) -> &mut Egress {
        self.registry.sessions.get_mut(&client.session_id).unwrap().egress.as_mut().unwrap()
    }

    fn lane_body(session_id: u64, generation: u64, key: &[u8; 32]) -> Vec<u8> {
        let nonce = [0x2d_u8; 16];
        let tag = auth::lane_tag(key, session_id, 1, generation, &nonce);
        Envelope::new(
            1,
            vec![
                (0, Value::Unsigned(session_id)),
                (1, Value::Unsigned(1)),
                (2, Value::Unsigned(generation)),
                (3, Value::Bytes(nonce.to_vec())),
                (4, Value::Bytes(tag.to_vec())),
            ],
        )
        .encode()
        .unwrap()
    }

    fn open_lane(&mut self, session_id: u64, generation: u64, key: &[u8; 32]) -> Result<(), u64> {
        let body = Self::lane_body(session_id, generation, key);
        let refused = |refusal: vivido::lane_control::LaneRefusal| {
            let record = refusal.record().unwrap();
            assert_eq!(record.0, protocol::ERROR);
            refusal.code
        };
        let (request_id, open) =
            self.registry.authenticate_lane(protocol::LANE_OPEN, &body).map_err(refused)?;
        assert_eq!(request_id, 1);
        self.registry.admit_lane(&open, request_id).map_err(refused)?;
        let accepted = lane_accepted(&open, request_id).unwrap();
        assert_eq!(accepted.0, protocol::LANE_ACCEPTED);
        self.registry.sessions.get_mut(&session_id).unwrap().lane_egress = Some(Egress::detached());
        Ok(())
    }

    fn lane_next(&mut self, client: &Client) -> Option<(u16, u64, Vec<u8>)> {
        let session = self.registry.sessions.get_mut(&client.session_id).unwrap();
        match session.lane_egress.as_mut().unwrap().next() {
            NextRecord::Write(record_type, object_id, body) => Some((record_type, object_id, body)),
            _ => None,
        }
    }

    /// Ask for desktop input over a lane and read what is bound.
    fn bind(
        &mut self,
        client: &Client,
        surface_id: u64,
        epoch: u64,
        surface: Option<SurfaceInput>,
    ) -> PayloadMap {
        let body = Envelope::new(
            0,
            vec![
                (0, Value::Unsigned(epoch)),
                (1, Value::Unsigned(client.context_id)),
                (2, Value::Unsigned(surface_id)),
                (3, Value::Unsigned(1)),
                (4, Value::Unsigned(vivid_protocol::input::INPUT_CLASS_KEYBOARD)),
                (5, Value::Unsigned(6)),
                (6, Value::Unsigned(grant::DEFAULT_WATCHDOG_US)),
            ],
        )
        .encode()
        .unwrap();
        let now_us = self.now_us;
        let session = self.registry.sessions.get_mut(&client.session_id).unwrap();
        let request = match session.serve_lane(protocol::SET_INPUT_BINDING, surface_id, &body) {
            LaneStep::Ask(request) => request,
            _ => panic!("the binding was not asked about"),
        };
        assert!(session.answer_input(&request, surface, now_us));
        let (record_type, _, body) = self.lane_next(client).unwrap();
        assert_eq!(record_type, protocol::INPUT_BOUND);
        decode_control(&body).unwrap().payload
    }
}

fn contract_values(contract: &vivid_protocol::resource::ResourceContract) -> Vec<u64> {
    match contract.to_value() {
        Value::Map(entries) => entries.iter().map(|entry| entry.1.as_u64().unwrap()).collect(),
        _ => panic!("a contract is a map"),
    }
}

fn field(payload: &PayloadMap, key: u64) -> Option<u64> {
    payload.iter().find(|entry| entry.0 == key).and_then(|entry| entry.1.as_u64())
}

fn lease_definition(
    context_id: u64,
    lease_id: u64,
    secret: &[u8; 32],
) -> vivid_protocol::lease::SessionLeaseDefinition {
    let own = vivido::contract::presenter_contract();
    let requested = vivid_protocol::resource::ResourceContract::new(own.values);
    vivid_protocol::lease::SessionLeaseDefinition {
        context_id,
        lease_id,
        activation_verifier: auth::activation_verifier(lease_id, &Secret32::new(*secret)),
        activation_timeout_us: 20_000_000,
        requested_disconnect_grace_us: 0,
        cleanup_policy: CleanupPolicy::Immediate,
        permitted_profiles: sorted(&[profiles::CORE_CONTROL, profiles::TERMINAL_SURFACE]),
        requested_contract: requested,
        client_public_key: None,
    }
}

fn resumable_definition(
    context_id: u64,
    lease_id: u64,
    secret: &[u8; 32],
) -> vivid_protocol::lease::SessionLeaseDefinition {
    vivid_protocol::lease::SessionLeaseDefinition {
        requested_disconnect_grace_us: 10_000_000,
        cleanup_policy: CleanupPolicy::SuspendOnUncleanLoss,
        ..lease_definition(context_id, lease_id, secret)
    }
}

/// The body of an anchor marker, as a terminal's parser hands it over.
fn marker_body(key: &[u8; 32], tag: &[u8; 16], context_id: u64, anchor_id: u64) -> String {
    let marker = anchor::encode_marker(&AnchorKey::new(*key), tag, context_id, anchor_id).unwrap();
    marker[2..marker.len() - 2].to_owned()
}

fn surface_definition(context_id: u64, surface_id: u64, title: &str) -> SurfaceDefinition {
    SurfaceDefinition {
        context_id,
        surface_id,
        semantic_profile: profiles::TERMINAL_CONTENT.into(),
        coordinate_model: CoordinateModel::TerminalContentCells,
        logical_width: 2,
        logical_height: 2,
        scale_numerator: 1,
        scale_denominator: 1,
        rotation: 0,
        descriptor: SurfaceDescriptor {
            role: SurfaceRole::Figure,
            title: title.into(),
            semantic_content_revision: 1,
            semantic_availability: 0,
            locator_hint: String::new(),
        },
        policy: 0,
        profile_parameters: vec![],
    }
}

fn desktop_surface(context_id: u64, capabilities: u64) -> SurfaceDefinition {
    SurfaceDefinition {
        context_id,
        surface_id: 5,
        semantic_profile: profiles::DESKTOP_CONTENT.into(),
        coordinate_model: CoordinateModel::DesktopLogicalPixels,
        logical_width: 1920,
        logical_height: 1080,
        scale_numerator: 1,
        scale_denominator: 1,
        rotation: 0,
        descriptor: SurfaceDescriptor {
            role: SurfaceRole::Desktop,
            title: "desktop".into(),
            semantic_content_revision: 1,
            semantic_availability: 0,
            locator_hint: String::new(),
        },
        policy: 0,
        profile_parameters: DesktopSurfaceParameters {
            captured_origin_x: 0,
            captured_origin_y: 0,
            topology: vec![],
            semantic_generation: 1,
            input_capabilities: capabilities,
        }
        .encode(),
    }
}

/// Create a surface, the scene having taken it.
fn create_surface(service: &mut Service, client: &Client, definition: &SurfaceDefinition) -> SurfaceIdentity {
    let payload = definition.create_payload().unwrap();
    let step = service.request(client, protocol::CREATE_SURFACE, definition.surface_id, payload);
    let (identity, definition) = match step {
        Step::Ask(Question::CreateSurface(identity, definition), _) => (identity, definition),
        Step::Refuse(error) => panic!("{}", error.message),
        _ => panic!("the surface was not asked about"),
    };
    let session = service.registry.sessions.get_mut(&client.session_id).unwrap();
    let status = SurfaceStatus {
        identity,
        revision: 1,
        generation: 1,
        definition,
        active_slots: vec![],
        lifecycle: ACTIVE,
    };
    let record = match answer_surface(session, Ok(status), identity.surface_id, 2) {
        Ok(record) => record,
        Err(error) => panic!("{}", error.message),
    };
    assert_eq!(record.0, protocol::SURFACE_READY);
    identity
}

#[test]
fn root_hello_replay_is_rejected() {
    let mut service = Service::terminal();
    let mut hello = service.hello(HelloAuthentication::Root { proof: [0; 32] });
    service.sign_root(&mut hello);
    let secret = service.root.secret;
    let first = service.open(&hello, &secret).unwrap();
    assert!(service.open(&hello, &secret).is_err());
    service.query_session(&first);
}

#[test]
fn a_root_proof_under_another_secret_is_refused() {
    let mut service = Service::terminal();
    let mut hello = service.root_hello();
    hello.authenticate_root(&Secret32::new([0x55; 32]), &preface()).unwrap();
    let refusal = service.greeted(&hello).err().unwrap();
    assert_eq!(refusal.code, Some(protocol::ERROR_AUTH_FAILED));
    assert_eq!(service.registry.sessions.len(), 0);
    assert_eq!(service.registry.root_nonces.entries.len(), 0);
}

#[test]
fn a_drawn_root_is_its_own_text() {
    let first = draw_root().unwrap();
    let second = draw_root().unwrap();
    assert_eq!(first.secret_text, encode_hex(&first.secret));
    assert_eq!(first.secret_text.len(), 64);
    assert_ne!(first.secret, second.secret);
    assert_ne!(first.presenter, second.presenter);
}

#[test]
fn a_root_is_made_of_the_bytes_that_were_drawn() {
    let root = PresenterRoot::of([0x0a; 16], [0xb7; 32]);
    assert_eq!(root.presenter.0, [0x0a; 16]);
    assert_eq!(root.secret, [0xb7; 32]);
    assert_eq!(root.secret_text, "b7".repeat(32));
}

#[test]
fn a_greeting_is_examined_before_anything_is_drawn_for_it() {
    let mut service = Service::terminal();
    let mut hello = service.root_hello();
    let tried = |service: &mut Service, hello: &Hello| {
        let greeting = Greeting::read(&hello.encode(1).unwrap()).unwrap();
        let secret = service.root.secret;
        examine(
            &mut service.registry,
            &secret,
            &preface(),
            &service.target,
            &greeting,
            service.now_us,
        )
    };
    let refusal = tried(&mut service, &hello).err().unwrap();
    assert_eq!(refusal.code, Some(protocol::ERROR_AUTH_FAILED));
    service.sign_root(&mut hello);
    // Until a session comes of it, the greeting may be made again.
    for _ in 0..2 {
        let (principal, accepted) = match tried(&mut service, &hello) {
            Ok(admitted) => admitted,
            Err(refusal) => panic!("{}", refusal.message),
        };
        assert!(matches!(principal, Principal::Root));
        assert_eq!(accepted, sorted(&[profiles::CORE_CONTROL, profiles::TERMINAL_SURFACE]));
    }
    assert_eq!(service.registry.root_nonces.entries.len(), 0);
    assert_eq!(service.registry.numbers.next, 1);
    service.registry.numbers.next = 0;
    let refusal = tried(&mut service, &hello).err().unwrap();
    assert_eq!(refusal.message, "session ID exhausted");
    // The numbers come round.
    assert_eq!(service.registry.numbers.next, 1);
}

#[test]
fn a_refused_root_greeting_is_answered_again() {
    let mut service = Service::terminal();
    let secret = service.root.secret;
    let mut hello = service.root_hello();
    hello.target_profile = profiles::DESKTOP_SURFACE.to_owned();
    hello.required_profiles = sorted(&[profiles::CORE_CONTROL, profiles::DESKTOP_SURFACE]);
    service.sign_root(&mut hello);
    for _ in 0..2 {
        let refusal = service.greeted(&hello).err().unwrap();
        assert_eq!(refusal.code, Some(protocol::ERROR_UNSUPPORTED_PROFILE));
    }
    // No number was drawn for it, and nothing is remembered of it.
    assert_eq!(service.registry.numbers.next, 1);
    assert_eq!(service.registry.root_nonces.entries.len(), 0);
    let clients = (0..MAX_SESSIONS).map(|_| service.connect()).collect::<Vec<_>>();
    assert_eq!(clients[0].session_id, 1);
    assert_eq!(clients[1].session_id, 2);
    let mut waiting = service.root_hello();
    service.sign_root(&mut waiting);
    for _ in 0..2 {
        let refusal = service.greeted(&waiting).err().unwrap();
        assert_eq!(refusal.code, Some(protocol::ERROR_LIMIT_EXCEEDED));
    }
    service.lose(&clients[0]);
    let session = service.open(&waiting, &secret).unwrap();
    assert_eq!(session.session_id, MAX_SESSIONS as u64 + 1);
    let refusal = service.greeted(&waiting).err().unwrap();
    assert_eq!(refusal.code, Some(protocol::ERROR_AUTH_FAILED));
}

#[test]
fn the_control_ceiling_of_a_web_session_is_the_announced_one() {
    let mut service = Service::desktop();
    let mut hello = service.root_hello();
    hello.optional_profiles = sorted(&[profiles::WEB_CARRIER]);
    service.sign_root(&mut hello);
    let established = service.greeted(&hello).unwrap();
    let (_, welcome) = Welcome::decode(&established.welcome).unwrap();
    assert_eq!(established.maximum_control_body, welcome.maximum_control_body);
    assert_eq!(established.maximum_control_body, vivid_protocol::web::MAX_CONTROL_RECORD_BODY);
}

#[test]
fn a_session_is_made_of_what_was_drawn() {
    let mut service = Service::terminal();
    let mut hello = service.root_hello();
    service.sign_root(&mut hello);
    let greeting = Greeting::read(&hello.encode(1).unwrap()).unwrap();
    let entropy = Entropy { server_nonce: [0x31; 32], session_tag: [0x32; 16] };
    service.registry.numbers.next = 5;
    let secret = service.root.secret;
    let established = match establish_root_session(
        &mut service.registry,
        service.root.presenter,
        &secret,
        &preface(),
        &service.target,
        &greeting,
        &entropy,
        service.now_us,
    ) {
        Ok(established) => established,
        Err(refusal) => panic!("{}", refusal.message),
    };
    let (_, welcome) = Welcome::decode(&established.welcome).unwrap();
    assert_eq!(welcome.server_nonce, [0x31; 32]);
    assert_eq!(welcome.session_tag, [0x32; 16]);
    assert_eq!((welcome.session_id, established.session.identity.session_id), (5, 5));
}

#[test]
fn lost_welcome_retries_the_same_immediate_lease() {
    let mut service = Service::terminal();
    let controller = service.connect();
    let context = controller.context_id;
    let secret = [0x71; 32];
    service.lease(&controller, &lease_definition(context, 31, &secret));
    let first = service.activate(context, 31, &secret).unwrap();
    let id = first.session_id;
    // No post-HELLO record: exact activation retry must remain possible.
    service.lose(&first);
    assert!(!service.registry.sessions.contains(&id));
    let retry = service.activate(context, 31, &secret).unwrap();
    assert_eq!(retry.session_id, id);
    service.query_session(&retry);
    assert!(service.activate(context, 31, &secret).is_err());
    service.query_session(&controller);
}

#[test]
fn welcome_respects_hello_receive_ceiling() {
    let mut service = Service::terminal();
    let mut hello = service.root_hello();
    hello.maximum_control_body = 1;
    service.sign_root(&mut hello);
    let secret = service.root.secret;
    assert!(service.open(&hello, &secret).is_err());
}

#[test]
fn lost_resume_welcome_retries_without_consuming_the_previous_key() {
    let mut service = Service::terminal();
    let controller = service.connect();
    let context = controller.context_id;
    let secret = [0x74; 32];
    service.lease(&controller, &resumable_definition(context, 33, &secret));
    let child = service.activate(context, 33, &secret).unwrap();
    let id = child.session_id;
    let prior = child.resume_key;
    service.query_session(&child);
    service.lose(&child);
    assert!(!service.registry.sessions.contains(&id));
    let resumed = service.resume(context, 33, id, 0, &prior).unwrap();
    assert_eq!(resumed.session_id, id);
    service.lose(&resumed);
    assert!(!service.registry.sessions.contains(&id));
    let retried = service.resume(context, 33, id, 0, &prior).unwrap();
    assert_eq!(retried.session_id, id);
    service.query_session(&retried);
    assert!(service.resume(context, 33, id, 0, &prior).is_err());
    service.query_session(&controller);
}

#[test]
fn welcome_write_failure_keeps_the_exact_activation_retry() {
    let mut service = Service::terminal();
    let controller = service.connect();
    let context = controller.context_id;
    let secret = [0x75; 32];
    service.lease(&controller, &lease_definition(context, 34, &secret));
    let hello = service.hello(HelloAuthentication::LeaseActivation {
        context_id: context,
        lease_id: 34,
        activation_secret: Secret32::new(secret),
        attempt_id: [0x5a; 16],
        proof_of_possession: None,
    });
    let established = service.greeted(&hello).unwrap();
    // The peer is gone before its welcome is written.
    welcome_failed(&mut service.registry, &established.session, service.now_us);
    let retry = service.activate(context, 34, &secret).unwrap();
    assert_eq!(retry.session_id, established.session.identity.session_id);
    service.query_session(&retry);
    service.query_session(&controller);
}

#[test]
fn root_replay_capacity_expires_without_evicting_live_entries() {
    let mut service = Service::terminal();
    for id in 0_u64..4096 {
        let mut nonce = [0; 32];
        nonce[..8].copy_from_slice(&id.to_be_bytes());
        service.registry.root_nonces.entries.push((nonce, service.now_us + 300_000_000));
    }
    let secret = service.root.secret;
    let mut hello = service.hello(HelloAuthentication::Root { proof: [0; 32] });
    service.sign_root(&mut hello);
    assert!(service.open(&hello, &secret).is_err());
    assert_eq!(service.registry.root_nonces.entries.len(), 4096);
    for entry in &mut service.registry.root_nonces.entries {
        entry.1 = service.now_us;
    }
    service.open(&hello, &secret).unwrap();
    assert_eq!(service.registry.root_nonces.entries.len(), 1);
}

#[test]
fn a_web_carrier_session_advertises_the_web_ceilings() {
    // A session that will ride a browser carrier must be offered ceilings the carrier can
    // deliver, or the bridge closes tracks the presenter claimed to support.
    let mut service = Service::desktop();
    let mut hello = service.root_hello();
    hello.required_profiles =
        sorted(&[profiles::CORE_CONTROL, profiles::DESKTOP_SURFACE, profiles::LIVE_MEDIA]);
    hello.optional_profiles = sorted(&[profiles::OBSERVABILITY, profiles::WEB_CARRIER]);
    service.sign_root(&mut hello);
    let secret = service.root.secret;
    let session = service.open(&hello, &secret).unwrap();
    assert!(
        session.accepted_profiles.iter().any(|profile| profile == profiles::WEB_CARRIER),
        "an offered web-carrier profile is accepted"
    );
    let contract = &session.contract;
    assert_eq!(
        contract[Resource::ControlRecordBody as usize],
        u64::from(vivid_protocol::web::MAX_CONTROL_RECORD_BODY)
    );
    assert_eq!(
        contract[Resource::MediaRecordBody as usize],
        u64::from(vivid_protocol::web::MAX_MEDIA_RECORD_BODY)
    );
    assert_eq!(
        contract[Resource::InflightMediaBytes as usize],
        vivid_protocol::web::MAX_AGGREGATE_REASSEMBLY
    );
}

#[test]
fn a_native_session_keeps_the_native_ceilings() {
    // Without the web-carrier profile nothing about the offer changes.
    let mut service = Service::desktop();
    let session = service.connect();
    assert!(!session.accepted_profiles.iter().any(|profile| profile == profiles::WEB_CARRIER));
    assert_eq!(session.contract.len(), RESOURCE_COUNT);
    assert_eq!(
        session.contract[Resource::ControlRecordBody as usize],
        u64::from(vivid_protocol::CONTROL_MAX_RECORD_BODY)
    );
    assert_eq!(
        session.contract[Resource::MediaRecordBody as usize],
        u64::from(vivid_protocol::HARD_MAX_RECORD_BODY)
    );
}

#[test]
fn a_terminal_producer_cannot_attach_to_a_desktop_window() {
    // A window presents exactly one target profile.
    let mut service = Service::desktop();
    let mut hello = service.root_hello();
    hello.required_profiles = sorted(&[profiles::CORE_CONTROL, profiles::TERMINAL_SURFACE]);
    hello.target_profile = profiles::TERMINAL_SURFACE.into();
    service.sign_root(&mut hello);
    let secret = service.root.secret;
    assert!(
        service.open(&hello, &secret).is_err(),
        "a terminal-surface-v1 producer must be refused by a desktop window"
    );
}

#[test]
fn a_lease_reply_carries_no_secret_and_activates_a_child_session() {
    let mut service = Service::terminal();
    let controller = service.connect();
    let context_id = controller.context_id;
    let secret = [0x5c; 32];

    let definition = lease_definition(context_id, 3, &secret);
    let step = service.request(
        &controller,
        protocol::CREATE_SESSION_LEASE,
        3,
        definition.payload().unwrap(),
    );
    let ready = match step {
        Step::Answer(record) => decode_control(&record.2).unwrap().payload,
        _ => panic!("the lease was not granted"),
    };
    assert_eq!(field(&ready, 1), Some(3));
    assert_eq!(field(&ready, 2), Some(vivid_protocol::lease::LeaseState::Issued as u64));
    assert!(!ready.iter().any(|(_, value)| matches!(value, Value::Bytes(_))));

    // The presenter only ever received a verifier, so the child authenticates with a secret the
    // presenter cannot have leaked back.
    let child = service.activate(context_id, 3, &secret).unwrap();
    assert_eq!(service.target.profile, profiles::TERMINAL_SURFACE);
    assert_ne!(
        child.session_id, controller.session_id,
        "a lease activates a distinct logical session"
    );
}

#[test]
fn a_wrong_activation_secret_is_refused() {
    let mut service = Service::terminal();
    let controller = service.connect();
    let context_id = controller.context_id;
    let secret = [0x11; 32];
    service.lease(&controller, &lease_definition(context_id, 4, &secret));

    assert!(
        service.activate(context_id, 4, &[0x12; 32]).is_err(),
        "a near-miss secret must not activate"
    );
    assert!(
        service.activate(context_id, 9, &secret).is_err(),
        "the lease ID is bound into the verifier"
    );
    // The real secret still works afterwards: a failed attempt must not consume the lease.
    assert!(service.activate(context_id, 4, &secret).is_ok());
}

#[test]
fn revoking_a_lease_closes_only_its_child() {
    let mut service = Service::terminal();
    let controller = service.connect();
    let context_id = controller.context_id;
    let first = [0x21; 32];
    let second = [0x22; 32];
    for (lease_id, secret) in [(5, &first), (6, &second)] {
        service.lease(&controller, &lease_definition(context_id, lease_id, secret));
    }
    let kept = service.activate(context_id, 6, &second).unwrap();
    let doomed = service.activate(context_id, 5, &first).unwrap();

    let step = service.request(
        &controller,
        protocol::REVOKE_SESSION_LEASE,
        5,
        vec![(0, Value::Unsigned(context_id)), (1, Value::Unsigned(5))],
    );
    match step {
        Step::EndSession(identity, record) => {
            assert_eq!(identity.session_id, doomed.session_id);
            assert_eq!(record.0, protocol::OK);
        },
        Step::Refuse(error) => panic!("{}", error.message),
        _ => panic!("the child was not ended"),
    }
    // The surviving child still answers, and the revoked one's session is gone.
    service.query_session(&kept);
    assert_eq!(
        service.registry.sessions.len(),
        2,
        "only the controller and the surviving child remain"
    );
}

#[test]
fn closing_the_issuer_takes_its_leases_with_it() {
    // Parent cleanup removes only that subtree.
    let mut service = Service::terminal();
    let controller = service.connect();
    let context_id = controller.context_id;
    let secret = [0x31; 32];
    service.lease(&controller, &lease_definition(context_id, 7, &secret));
    let finished =
        service.registry.finish_session(&controller.departure, true, service.now_us);
    assert_eq!(finished.end, SessionEnd::Detached);
    assert_eq!(service.registry.leases.len(), 0);
    assert!(
        service.activate(context_id, 7, &secret).is_err(),
        "a lease cannot outlive the session that issued it"
    );
}

#[test]
fn a_revoked_child_takes_its_own_leases_with_it() {
    let mut service = Service::terminal();
    let controller = service.connect();
    let first = [0x41; 32];
    service.lease(&controller, &lease_definition(controller.context_id, 5, &first));
    let child = service.activate(controller.context_id, 5, &first).unwrap();
    let second = [0x42; 32];
    service.lease(&child, &lease_definition(child.context_id, 8, &second));
    assert_eq!(service.registry.leases.len(), 2);
    let step = service.request(
        &controller,
        protocol::REVOKE_SESSION_LEASE,
        5,
        vec![(0, Value::Unsigned(controller.context_id)), (1, Value::Unsigned(5))],
    );
    assert!(matches!(step, Step::EndSession(_, _)));
    // The child left the registry with its lease; its connection ends afterwards.
    service.lose(&child);
    assert_eq!(service.registry.leases.len(), 0);
    assert!(service.activate(child.context_id, 8, &second).is_err());
    service.query_session(&controller);
}

#[test]
fn session_status_reports_revisions_a_producer_can_reconcile_against() {
    let mut service = Service::terminal();
    let session = service.connect();
    let definition = surface_definition(session.context_id, 21, "status");
    let surface = create_surface(&mut service, &session, &definition);
    let entry = Value::Map(vec![(0, Value::Unsigned(surface.surface_id))]);
    let status = SessionStatus {
        session_revision: 7,
        scene_revision: 3,
        target_generation: 1,
        entries: vec![entry],
        resource_usage: Value::Map(vec![]),
    };
    let record = match answer_session_query(status, 2) {
        Ok(record) => record,
        Err(error) => panic!("{}", error.message),
    };
    let status = decode_control(&record.2).unwrap().payload;
    let entry = |key: u64| status.iter().find(|entry| entry.0 == key).map(|entry| &entry.1);
    assert_eq!(field(&status, 0), Some(7), "session revision");
    assert_eq!(field(&status, 2), Some(1), "target generation");
    assert_eq!(field(&status, 3), Some(1), "establishment: active");
    assert_eq!(entry(5).and_then(|value| value.as_bool()), Some(true), "input disabled");
    let Some(Value::Array(entries)) = entry(6) else {
        panic!("SESSION_STATUS must carry bounded object summaries")
    };
    assert_eq!(entries.len(), 1, "the one surface this session owns");
}

#[test]
fn an_anchor_marker_flood_is_bounded_and_costs_no_other_session_anything() {
    let mut service = Service::terminal();
    let flooded = service.connect();
    let quiet = service.connect();

    // The flooded session's own tag, with an authenticator derived from somebody else's key: the
    // lookup succeeds, so every one of these reaches verification and fails it.
    let forged = marker_body(&[0x5a; 32], &flooded.session_tag, flooded.context_id, 1);
    let attempts = 16 * MARKER_ADMISSION_RATE;
    let mut anchors = 0;
    for _ in 0..attempts {
        if service.registry.take_marker(&forged, service.now_us).is_some() {
            anchors += 1;
        }
    }

    let admitted = service.registry.sessions.get(&flooded.session_id).unwrap().markers.admitted;
    assert!(
        admitted <= 4 * MARKER_ADMISSION_RATE,
        "{admitted} of {attempts} forged markers were verified"
    );
    assert_eq!(anchors, 0, "no forgery became an anchor");

    // The other session's budget is its own, and its markers still work.
    assert_eq!(
        service.registry.sessions.get(&quiet.session_id).unwrap().markers.admitted,
        0,
        "a flood spends no other budget"
    );
    let genuine = marker_body(&quiet.anchor_key, &quiet.session_tag, quiet.context_id, 7);
    let anchor = service.registry.take_marker(&genuine, service.now_us).unwrap();
    assert_eq!(anchor.context.session.session_id, quiet.session_id);
    assert_eq!(anchor.anchor_id, 7);
    // The same marker again is old news.
    assert!(service.registry.take_marker(&genuine, service.now_us).is_none());
    assert!(service.registry.take_marker("not a marker", service.now_us).is_none());
}

#[test]
fn a_departing_session_unpublishes_only_its_own_marker_tag() {
    let mut service = Service::terminal();
    let leaving = service.connect();
    let staying = service.connect();
    for client in [&leaving, &staying] {
        assert_eq!(
            service.registry.session_by_tag(&client.session_tag),
            Some(client.session_id),
            "a live session is reachable by the tag its markers carry"
        );
    }

    let finished =
        service.registry.finish_session(&leaving.departure, true, service.now_us);
    assert_eq!(finished.end, SessionEnd::Detached);
    assert_eq!(service.registry.sessions.len(), 1, "the departed session leaves the registry");

    assert!(
        service.registry.session_by_tag(&leaving.session_tag).is_none(),
        "the departed tag resolves to nothing"
    );
    assert_eq!(
        service.registry.session_by_tag(&staying.session_tag),
        Some(staying.session_id),
        "the surviving session's tag is untouched"
    );

    let genuine = marker_body(&staying.anchor_key, &staying.session_tag, staying.context_id, 9);
    assert!(service.registry.take_marker(&genuine, service.now_us).is_some());
}

#[test]
fn an_unclean_loss_suspends_a_resumable_lease_and_resume_restores_it() {
    let mut service = Service::terminal();
    let controller = service.connect();
    let context_id = controller.context_id;
    let secret = [0x61; 32];
    service.lease(&controller, &resumable_definition(context_id, 11, &secret));

    let child = service.activate(context_id, 11, &secret).unwrap();
    let child_session = child.session_id;
    let resume_key = child.resume_key;
    let tag = child.session_tag;
    // A post-`HELLO` record closes the activation-retry window, so the only recovery left is the
    // resume proof.
    service.query_session(&child);
    assert_eq!(service.lose(&child), SessionEnd::Suspended);
    assert_eq!(service.registry.sessions.len(), 1, "the lost child leaves the session registry");
    assert_eq!(service.registry.leases.len(), 1, "the lease is still charged");

    let resumed = service.resume(context_id, 11, child_session, 0, &resume_key).unwrap();
    assert_eq!(resumed.session_id, child_session, "the logical session survives the loss");
    assert_ne!(resumed.session_tag, tag, "resume derives fresh key material");
    service.query_session(&resumed);
}

#[test]
fn only_a_lease_that_was_used_is_suspended() {
    let mut service = Service::terminal();
    let controller = service.connect();
    let context_id = controller.context_id;
    let secret = [0x66; 32];
    service.lease(&controller, &resumable_definition(context_id, 16, &secret));
    let child = service.activate(context_id, 16, &secret).unwrap();
    let now_us = service.now_us;
    let key = child.departure.lease.unwrap();
    assert!(service.registry.leases.get_mut(&key).unwrap().suspends_on_unclean_loss());
    service.query_session(&child);
    let lease = service.registry.leases.get_mut(&key).unwrap();
    assert!(lease.suspend(child.resume_key, now_us));
    assert!(lease.suspended());
    assert_eq!(lease.resume_key, Some(child.resume_key));
    // A suspended lease has no transport to lose.
    assert!(!lease.suspend([0; 32], now_us));
    assert_eq!(lease.resume_key, Some(child.resume_key));
}

#[test]
fn a_consumed_resume_cannot_be_replayed() {
    let mut service = Service::terminal();
    let controller = service.connect();
    let context_id = controller.context_id;
    let secret = [0x62; 32];
    service.lease(&controller, &resumable_definition(context_id, 12, &secret));
    let child = service.activate(context_id, 12, &secret).unwrap();
    let child_session = child.session_id;
    let resume_key = child.resume_key;
    service.query_session(&child);
    service.lose(&child);

    let first = service.resume(context_id, 11 + 1, child_session, 0, &resume_key).unwrap();
    assert_eq!(first.session_id, child_session);
    // Competing resume attempts cannot both advance the generation, so the same proof at
    // generation zero is now stale.
    assert!(
        service.resume(context_id, 12, child_session, 0, &resume_key).is_err(),
        "a consumed resume proof must not open a second session"
    );
}

#[test]
fn a_wrong_resume_proof_is_refused() {
    let mut service = Service::terminal();
    let controller = service.connect();
    let context_id = controller.context_id;
    let secret = [0x65; 32];
    service.lease(&controller, &resumable_definition(context_id, 15, &secret));
    let child = service.activate(context_id, 15, &secret).unwrap();
    let child_session = child.session_id;
    service.query_session(&child);
    service.lose(&child);

    assert!(
        service.resume(context_id, 15, child_session, 0, &[0xff; 32]).is_err(),
        "a resume proof under the wrong key must be refused"
    );
}

#[test]
fn a_lease_without_grace_closes_instead_of_suspending() {
    // Cleanup policy zero closes immediately, even on an unclean loss.
    let mut service = Service::terminal();
    let controller = service.connect();
    let context_id = controller.context_id;
    let secret = [0x63; 32];
    service.lease(&controller, &lease_definition(context_id, 13, &secret));
    let child = service.activate(context_id, 13, &secret).unwrap();
    let child_session = child.session_id;
    let resume_key = child.resume_key;
    service.query_session(&child);
    assert_eq!(service.lose(&child), SessionEnd::Removed);
    assert_eq!(
        service.registry.leases.len(),
        0,
        "an immediate cleanup policy releases the lease and its retained state"
    );
    assert!(
        service.resume(context_id, 13, child_session, 0, &resume_key).is_err(),
        "a closed lease cannot resume"
    );
}

#[test]
fn a_suspended_lease_is_released_when_its_grace_expires() {
    let mut service = Service::terminal();
    let controller = service.connect();
    let context_id = controller.context_id;
    let secret = [0x66; 32];
    let mut definition = resumable_definition(context_id, 16, &secret);
    definition.requested_disconnect_grace_us = 50_000;
    service.lease(&controller, &definition);

    let child = service.activate(context_id, 16, &secret).unwrap();
    service.query_session(&child);
    service.lose(&child);

    // Grace expiry performs final owner-scoped cleanup, releasing the reservation.
    let issuer = SessionIdentity::new(service.root.presenter, controller.session_id).unwrap();
    assert!(service.registry.expire_leases(issuer, service.now_us + 49_999).is_empty());
    assert_eq!(service.registry.leases.len(), 1);
    let ended = service.registry.expire_leases(issuer, service.now_us + 50_000);
    assert_eq!(ended.len(), 1);
    assert_eq!(ended[0].session_id, child.session_id);
    assert_eq!(
        service.registry.leases.len(),
        0,
        "the grace deadline releases a suspended lease and its retained state"
    );
}

#[test]
fn an_authenticated_interactive_lane_opens_and_answers_ping() {
    let mut service = Service::terminal();
    let session = service.connect();
    service.open_lane(session.session_id, 1, &session.channel_key).unwrap();
    let ping = Envelope::new(7, Vec::new()).encode().unwrap();
    let served = service.registry.sessions.get_mut(&session.session_id).unwrap();
    assert!(matches!(served.serve_lane(protocol::PING, 0, &ping), LaneStep::Continue));
    let (record_type, _, _) = service.lane_next(&session).unwrap();
    assert_eq!(record_type, protocol::PONG, "the lane is serviced independently of control");

    // Only one transport per generation.
    assert!(
        service.open_lane(session.session_id, 1, &session.channel_key).is_err(),
        "a duplicate open while the first is live must be refused"
    );

    service.registry.sessions.get_mut(&session.session_id).unwrap().lose_lane(1);
    // After confirmed loss the same generation may be reopened, because no input was admitted.
    assert!(
        service.open_lane(session.session_id, 1, &session.channel_key).is_ok(),
        "an exact retry after loss is accepted"
    );
    // A lower generation is always refused.
    assert!(service.open_lane(session.session_id, 0, &session.channel_key).is_err());
}

#[test]
fn a_lane_with_a_bad_tag_or_unknown_session_is_refused() {
    let mut service = Service::terminal();
    let session = service.connect();
    assert!(
        service.open_lane(session.session_id, 1, &[0; 32]).is_err(),
        "a tag under the wrong key must not authenticate"
    );
    assert!(
        service.open_lane(9999, 1, &[0; 32]).is_err(),
        "an unknown session must not authenticate"
    );
}

#[test]
fn the_lane_refuses_records_it_does_not_carry() {
    let mut service = Service::terminal();
    let session = service.connect();
    service.open_lane(session.session_id, 1, &session.channel_key).unwrap();
    // A control record on the interactive lane is a framing error, not a mutation.
    let body = Envelope::new(1, Vec::new()).encode().unwrap();
    let served = service.registry.sessions.get_mut(&session.session_id).unwrap();
    match served.serve_lane(protocol::CREATE_SURFACE, 0, &body) {
        LaneStep::Refuse(refusal) => {
            let record = refusal.record().unwrap();
            assert_eq!(record.0, protocol::ERROR, "the lane rejects a record it does not carry");
        },
        _ => panic!("the lane took a record it does not carry"),
    }
    // The control session is untouched by that.
    service.query_session(&session);
}

#[test]
fn input_is_denied_until_the_desktop_has_presented_and_revoked_when_the_lane_dies() {
    // Enabling requires a presented picture on the active video track's current channel.
    let mut service = Service::desktop();
    let mut hello = service.root_hello();
    hello.required_profiles = sorted(&[
        profiles::CORE_CONTROL,
        profiles::DESKTOP_SURFACE,
        profiles::LIVE_MEDIA,
        profiles::DESKTOP_INPUT,
    ]);
    service.sign_root(&mut hello);
    let secret = service.root.secret;
    let session = service.open(&hello, &secret).unwrap();
    let definition =
        desktop_surface(session.context_id, vivid_protocol::input::INPUT_CLASS_KEYBOARD);
    assert_eq!(desktop_capability_mask(&definition), Some(INPUT_CLASS_KEYBOARD));
    let surface = create_surface(&mut service, &session, &definition);
    service.open_lane(session.session_id, 1, &session.channel_key).unwrap();
    let mut shown = SurfaceInput {
        lifecycle: ACTIVE,
        generation: 1,
        capability_mask: desktop_capability_mask(&definition),
        presented: false,
    };
    let denied = service.bind(&session, surface.surface_id, 1, Some(shown));
    assert_eq!(
        field(&denied, 6),
        Some(grant::STATE_DENIED),
        "nothing has been presented, so the binding is denied"
    );

    // Present something, then a strictly greater epoch is granted.
    shown.presented = true;
    let granted = service.bind(&session, surface.surface_id, 2, Some(shown));
    assert_eq!(field(&granted, 6), Some(grant::STATE_ENABLED));
    assert_eq!(
        field(&granted, 5),
        Some(vivid_protocol::input::INPUT_CLASS_KEYBOARD),
        "the grant is narrowed to the surface capability mask"
    );
    assert_eq!(field(&granted, 8), Some(grant::DEFAULT_WATCHDOG_US));

    // An event now reaches the producer, carrying the complete binding tuple.
    assert!(service.registry.send_input(InputEvent::Key { usage: 0x04, pressed: true }));
    let (record_type, _, body) = service.lane_next(&session).unwrap();
    assert_eq!(record_type, protocol::KEY_INPUT);
    let payload = decode_control(&body).unwrap().payload;
    assert_eq!(field(&payload, 0), Some(2), "the producer epoch it was granted under");
    assert_eq!(field(&payload, 3), Some(surface.surface_id));
    assert_eq!(field(&payload, 5), Some(0x04), "the HID usage");

    // Losing the lane revokes the grant and leaves the control session alone.
    service.registry.sessions.get_mut(&session.session_id).unwrap().lose_lane(1);
    assert!(
        !service.registry.send_input(InputEvent::Key { usage: 0x05, pressed: true }),
        "lane loss revokes the grant"
    );
    service.query_session(&session);
}

#[test]
fn a_terminal_window_never_grants_desktop_input() {
    // A terminal target masks off the input operation class, so the forwarding path in the
    // keyboard handler is inert for an ordinary window.
    let mut service = Service::terminal();
    let session = service.connect();
    assert!(!service.registry.send_input(InputEvent::Key { usage: 0x04, pressed: true }));
    let request = InputRequest {
        producer_epoch: 1,
        context_id: session.context_id,
        surface_id: 5,
        surface_generation: 1,
        requested_classes: INPUT_CLASS_KEYBOARD,
        reason: 6,
        requested_watchdog_us: grant::DEFAULT_WATCHDOG_US,
    };
    let shown = SurfaceInput {
        lifecycle: ACTIVE,
        generation: 1,
        capability_mask: Some(INPUT_CLASS_KEYBOARD),
        presented: true,
    };
    let held = service.registry.sessions.get(&session.session_id).unwrap();
    assert!(!held.input_eligibility(&request, Some(shown)).may_receive_input);
}

#[test]
fn a_subscribed_session_observes_its_own_mutations() {
    let mut service = Service::terminal();
    let session = service.connect();
    let held = service.registry.sessions.get_mut(&session.session_id).unwrap();
    let payload = vec![(0, Value::Unsigned(CLASS_SURFACE))];
    assert!(set_observation(held, &payload, 0, 2).is_ok());

    let definition = surface_definition(session.context_id, 51, "observed");
    let surface = create_surface(&mut service, &session, &definition);

    let held = service.registry.sessions.get_mut(&session.session_id).unwrap();
    drain_observations(&mut held.observations, held.egress.as_mut().unwrap());
    let observed = match service.egress(&session).next() {
        NextRecord::Write(record_type, _, body) => {
            assert_eq!(record_type, protocol::SURFACE_CHANGED);
            decode_control(&body).unwrap().payload
        },
        _ => panic!("a subscribed surface mutation is observed"),
    };
    assert_eq!(field(&observed, 1), Some(surface.surface_id));
    assert_eq!(field(&observed, 4), Some(SURFACE_CHANGED_LIFECYCLE));
    assert_eq!(
        field(&observed, OBSERVATION_SEQUENCE_KEY),
        Some(1),
        "observations carry a strictly increasing sequence"
    );
}

#[test]
fn an_unsubscribed_session_observes_nothing() {
    let mut service = Service::terminal();
    let session = service.connect();
    // No SET_OBSERVATION: the default mask is zero, so nothing is queued at all.
    let definition = surface_definition(session.context_id, 52, "quiet");
    create_surface(&mut service, &session, &definition);
    let held = service.registry.sessions.get_mut(&session.session_id).unwrap();
    drain_observations(&mut held.observations, held.egress.as_mut().unwrap());
    assert!(
        matches!(service.egress(&session).next(), NextRecord::Wait),
        "an unsubscribed session receives no observations"
    );
}

#[test]
fn an_unassigned_observation_class_is_refused() {
    let mut service = Service::terminal();
    let session = service.connect();
    let step = service.request(
        &session,
        protocol::SET_OBSERVATION,
        0,
        vec![(0, Value::Unsigned(1 << 9))],
    );
    assert!(matches!(step, Step::Refuse(_)));
}

#[test]
fn a_malformed_desktop_surface_takes_no_input() {
    let mut broken = desktop_surface(1, INPUT_CLASS_KEYBOARD);
    // Semantic generation zero is never valid.
    broken.profile_parameters = DesktopSurfaceParameters {
        captured_origin_x: 0,
        captured_origin_y: 0,
        topology: vec![],
        semantic_generation: 0,
        input_capabilities: INPUT_CLASS_KEYBOARD,
    }
    .encode();
    assert_eq!(desktop_capability_mask(&broken), None);
}

#[test]
fn a_ping_is_answered_with_what_it_carried() {
    let mut service = Service::terminal();
    let session = service.connect();
    let payload = vec![(0, Value::Unsigned(41))];
    match service.request(&session, protocol::PING, 0, payload.clone()) {
        Step::Answer(record) => {
            assert_eq!(record.0, protocol::PONG);
            assert_eq!(decode_control(&record.2).unwrap().payload, payload);
        },
        _ => panic!("the ping was not answered"),
    }
    assert!(answer_ping(payload, 3).is_ok());
}

#[test]
fn a_refusal_is_told_with_its_code() {
    let mut service = Service::terminal();
    let session = service.connect();
    let body = Envelope::new(9, vec![(7, Value::Bool(true))]).encode().unwrap();
    let record =
        ControlRecord { record_type: protocol::QUERY_SESSION, flags: 0, object_id: 0, body };
    let step = service.serve(&session, record.record_type, 0, record.body.clone());
    if let Step::Refuse(error) = step {
        assert!(dispatch_and_reply(service.egress(&session), &record, Err(error)));
        match service.egress(&session).next() {
            NextRecord::Write(record_type, _, body) => {
                assert_eq!(record_type, protocol::ERROR);
                let reply = parse_error_reply(&body).unwrap();
                assert_eq!(reply.request_id, 9);
                assert_eq!(reply.code, error.code);
            },
            _ => panic!("no refusal was queued"),
        }
    }
}

#[test]
fn an_undecodable_record_is_refused() {
    let mut service = Service::terminal();
    let session = service.connect();
    match service.serve(&session, protocol::QUERY_SESSION, 0, vec![0xff, 0x00]) {
        Step::Refuse(error) => assert_eq!(error.code, protocol::ERROR_BAD_MESSAGE),
        _ => panic!("an undecodable record was taken"),
    }
}

#[test]
fn a_record_reaches_no_foreign_session_and_an_unknown_one_changes_nothing() {
    let mut service = Service::terminal();
    let first = service.connect();
    let second = service.connect();
    // A context made in one session exists in no other.
    let payload = |parent: u64| {
        vivid_protocol::context::ContextDefinition {
            context_id: 8,
            parent_context_id: parent,
            operation_classes: OP_OBSERVE,
            label: "child".into(),
            lifetime_us: 0,
            requested_contract: vivid_protocol::resource::ResourceContract::denied(),
        }
        .payload()
        .unwrap()
    };
    match service.request(&first, protocol::CREATE_CONTEXT, 8, payload(first.context_id)) {
        Step::Answer(record) => assert_eq!(record.0, protocol::CONTEXT_READY),
        Step::Refuse(error) => panic!("{}", error.message),
        _ => panic!("the context was not answered"),
    }
    assert!(service.registry.sessions.get(&first.session_id).unwrap().contexts.contains(8));
    assert!(!service.registry.sessions.get(&second.session_id).unwrap().contexts.contains(8));

    // A record of no known type changes nothing and is refused.
    assert!(matches!(service.request(&first, 0x6f01, 0, vec![]), Step::Refuse(_)));
    assert!(service.registry.sessions.get(&first.session_id).unwrap().contexts.contains(8));

    // Revoking the context forgets it.
    match service.request(&first, protocol::REVOKE_CONTEXT, 8, vec![(0, Value::Unsigned(8))]) {
        Step::ForgetContexts(contexts, record) => {
            assert_eq!(contexts, vec![8]);
            assert_eq!(record.0, protocol::OK);
        },
        Step::Refuse(error) => panic!("{}", error.message),
        _ => panic!("the context was not revoked"),
    }
    assert!(!service.registry.sessions.get(&first.session_id).unwrap().contexts.contains(8));
}

#[test]
fn a_goodbye_ends_a_session_cleanly() {
    assert_eq!(after_record(protocol::GOODBYE, true), AfterRecord::End { clean: true });
    assert_eq!(after_record(protocol::PING, true), AfterRecord::Continue);
    assert_eq!(after_record(protocol::PING, false), AfterRecord::End { clean: false });
    assert!(matches!(traced_track_control(protocol::PLAY), Some((_, TraceCategory::Playback))));
    assert!(traced_track_control(protocol::PING).is_none());
}

#[test]
fn a_producer_that_stops_draining_control_cannot_stall_the_terminal_or_the_window() {
    let mut service = Service::terminal();
    let stalled = service.connect();
    let healthy = service.connect();
    // Nothing here waits for the producer: past its capacity the queue closes and the session
    // with it, while the other one's queue is untouched.
    for anchor_id in 1..=300 {
        let marker = marker_body(&stalled.anchor_key, &stalled.session_tag, stalled.context_id, anchor_id);
        if let Some(anchor) = service.registry.take_marker(&marker, service.now_us) {
            service.registry.announce_anchor(anchor, 1, 2, 1);
        }
    }
    assert!(service.egress(&stalled).overflowed());
    assert!(!service.egress(&healthy).overflowed());
    let marker = marker_body(&healthy.anchor_key, &healthy.session_tag, healthy.context_id, 1);
    let anchor = service.registry.take_marker(&marker, service.now_us).unwrap();
    service.registry.announce_anchor(anchor, 1, 2, 1);
    match service.egress(&healthy).next() {
        NextRecord::Write(record_type, _, _) => assert_eq!(record_type, protocol::ANCHOR_READY),
        _ => panic!("the healthy session was not told"),
    }
}

#[test]
fn a_marker_counts_against_its_own_session() {
    let mut service = Service::terminal();
    let client = service.connect();
    let marker = AnchorMarker {
        session_tag: client.session_tag,
        context_id: client.context_id,
        anchor_id: 4,
        authenticator: [0; 16],
    };
    let now_us = service.now_us;
    let session = service.registry.sessions.get_mut(&client.session_id).unwrap();
    assert!(!session.take_marker(&marker, now_us), "the authenticator is not the session's");
    assert_eq!(session.markers.admitted, 1);
    assert!(session.seen_anchors.is_empty());
}

fn raster_track(client: &Client) -> TrackConfiguration {
    TrackConfiguration {
        direction: TrackDirection::Downlink,
        context_id: client.context_id,
        surface_id: 21,
        track_id: 9,
        slot: SLOT_RASTER,
        mode: TrackMode::Live,
        lane: LaneClass::Bulk,
        maximum_record_body: 1 << 16,
        maximum_rate_millihertz: 30_000,
        maximum_encoded_bits_per_second: 1_000_000,
        maximum_records_per_second: 60,
        maximum_inflight_body_bytes: 1 << 20,
        kind: KindConfiguration::Raster(RasterConfiguration {
            width: 2,
            height: 2,
            alpha_mode: 1,
            delta_enabled: false,
            maximum_delta_operations: 1,
            zstd_enabled: false,
        }),
        target_latency_us: 0,
        maximum_latency_us: 1_000_000,
        retained_pixel_charge: 4,
    }
}

fn track_status(identity: TrackIdentity, configuration: TrackConfiguration) -> TrackStatus {
    TrackStatus {
        identity,
        revision: 1,
        channel_generation: 1,
        configuration,
        lifecycle: 1,
        milestones: 0,
        media_epoch: 0,
        last_media_id: 0,
        last_media_record_sequence: 0,
        last_decoded_pts_us: None,
        last_presented_pts_us: Some(-4),
        last_presentation_id: 0,
        sent_body_bytes: 0,
        sent_media_records: 0,
        maximum_channel_bytes: 1_000,
        maximum_channel_records: 6,
        audio_gain: 1 << 32,
    }
}

/// Create the raster track, the scene having taken it.
fn create_track(service: &mut Service, client: &Client) -> TrackStatus {
    let configuration = raster_track(client);
    let payload = configuration.payload(false).unwrap();
    let (identity, configuration) =
        match service.request(client, protocol::CREATE_TRACK, 9, payload) {
            Step::Ask(Question::CreateTrack(identity, configuration), _) => {
                (identity, configuration)
            },
            Step::Refuse(error) => panic!("{}", error.message),
            _ => panic!("the track was not asked about"),
        };
    if let Err(error) = check_support(identity, &configuration, false) {
        panic!("{}", error.message);
    }
    let status = track_status(identity, configuration);
    let told = track_status(identity, raster_track(client));
    let session = service.registry.sessions.get_mut(&client.session_id).unwrap();
    match answer_track(session, identity, Ok(told), 9, 2) {
        Ok(record) => assert_eq!(record.0, protocol::TRACK_READY),
        Err(error) => panic!("{}", error.message),
    }
    status
}

fn open_body(client: &Client, key: &[u8; 32], nonce: u8) -> Vec<u8> {
    let mut open = ChannelOpen {
        session_id: client.session_id,
        context_id: client.context_id,
        surface_id: 21,
        track_id: 9,
        channel_generation: 1,
        track_kind: TrackKind::Raster,
        lane: LaneClass::Bulk,
        client_nonce: [nonce; 16],
        authentication_tag: [0; 16],
    };
    open.sign(key);
    Envelope::new(4, open.payload()).encode().unwrap()
}

/// Open the track's channel, as far as the presenter goes along.
fn open_channel(
    service: &mut Service,
    status: &TrackStatus,
    body: &Vec<u8>,
) -> Result<(bool, PayloadMap), &'static str> {
    let named = match service.registry.name_channel(9, body) {
        Ok(named) => named,
        Err(rejection) => return Err(rejection.reason),
    };
    let shown = Some(track_status(status.identity, status.configuration.clone()));
    if let Err(rejection) = check_channel(&named, &shown) {
        assert_eq!(rejection.record().unwrap().0, protocol::ERROR);
        return Err(rejection.reason);
    }
    let accepted = match service.registry.admit_channel(&named, status, body) {
        Ok(accepted) => accepted,
        Err(rejection) => return Err(rejection.reason),
    };
    let replayed = accepted.replayed;
    match confirm_channel(accepted, true) {
        Ok(record) => {
            assert_eq!((record.0, record.1), (protocol::CHANNEL_ACCEPTED, 9));
            Ok((replayed, decode_control(&record.2).unwrap().payload))
        },
        Err(rejection) => Err(rejection.reason),
    }
}

#[test]
fn a_probe_tells_what_is_supported() {
    let mut service = Service::terminal();
    let client = service.connect();
    let probed = TrackConfiguration { track_id: 0, ..raster_track(&client) };
    let payload = probed.payload(true).unwrap();
    let configuration = match service.request(&client, protocol::PROBE_TRACK_CONFIG, 0, payload) {
        Step::Ask(Question::ProbeTrack(configuration), _) => configuration,
        Step::Refuse(error) => panic!("{}", error.message),
        _ => panic!("the probe was not asked about"),
    };
    match answer_probe(&configuration, true, 2) {
        Ok(record) => assert_eq!(record.0, protocol::TRACK_SUPPORT),
        Err(error) => panic!("{}", error.message),
    }
    assert!(supports_track(&read_track(&configuration), false));
    let step = service.request(&client, protocol::PROBE_TRACK_CONFIG, 0, vec![]);
    assert!(matches!(step, Step::Refuse(_)));
}

#[test]
fn a_channel_is_opened_once_and_a_lost_acceptance_is_repeated() {
    let mut service = Service::terminal();
    let client = service.connect();
    let status = create_track(&mut service, &client);
    let body = open_body(&client, &client.channel_key, 1);
    let (replayed, first) = open_channel(&mut service, &status, &body).unwrap();
    assert!(!replayed);
    // While that transport is live nothing else opens the channel.
    assert!(open_channel(&mut service, &status, &body).is_err());
    service.registry.detach_channel(&status.identity, 1);
    // The acceptance was lost: the same open is answered the same way.
    let (replayed, second) = open_channel(&mut service, &status, &body).unwrap();
    assert!(replayed);
    assert_eq!(first, second);
    // Once media was admitted, an open is not repeated.
    assert!(service.registry.admit_media(&status.identity, 1).is_ok());
    service.registry.detach_channel(&status.identity, 1);
    assert!(open_channel(&mut service, &status, &body).is_err());
    // Nor does another open take the generation over.
    let other = open_body(&client, &client.channel_key, 2);
    assert!(open_channel(&mut service, &status, &other).is_err());
    assert!(service.registry.admit_media(&status.identity, 2).is_err());
}

#[test]
fn a_picture_on_an_open_channel_is_published() {
    let mut service = Service::terminal();
    let client = service.connect();
    let status = create_track(&mut service, &client);
    let body = open_body(&client, &client.channel_key, 1);
    open_channel(&mut service, &status, &body).unwrap();
    let settings = read_track(&status.configuration);
    let mut channel = Channel::new(status.identity, 1, settings, service.now_us);
    let pixels: Vec<u8> = (0..16).collect();
    let frame = raster_frame_body(1, 7, 2, 2, &pixels).unwrap();
    match channel.take_record(&mut service.registry, ChannelRecord::Raster, &frame, None, 0) {
        Ok(ChannelStep::Publish(publication)) => {
            assert!(publication.complete);
            assert_eq!(publication.body_length as usize, frame.len());
        },
        Ok(_) => panic!("the picture was not published"),
        Err(failure) => panic!("{}", failure.diagnostic()),
    }
    // The picture went through, so the open is spent.
    service.registry.detach_channel(&status.identity, 1);
    assert!(open_channel(&mut service, &status, &body).is_err());
}

#[test]
fn a_channel_open_must_be_the_tracks_and_the_sessions_own() {
    let mut service = Service::terminal();
    let client = service.connect();
    let status = create_track(&mut service, &client);
    let forged = open_body(&client, &[0; 32], 1);
    assert_eq!(
        open_channel(&mut service, &status, &forged),
        Err("authentication_failed")
    );
    let mut stale = track_status(status.identity, raster_track(&client));
    stale.channel_generation = 2;
    let body = open_body(&client, &client.channel_key, 1);
    let named = match service.registry.name_channel(9, &body) {
        Ok(named) => named,
        Err(_) => panic!("the channel was named"),
    };
    match check_channel(&named, &Some(stale)) {
        Err(rejection) => assert_eq!(rejection.code, protocol::ERROR_STALE_CHANNEL_GENERATION),
        Ok(()) => panic!("the generation was stale"),
    }
    match check_channel(&named, &None) {
        Err(rejection) => assert_eq!(rejection.code, protocol::ERROR_NOT_FOUND),
        Ok(()) => panic!("there was no track"),
    }
    assert!(service.registry.name_channel(9, &vec![1, 2]).is_err());
    let stranger = Client { session_id: 77, ..service.connect() };
    let body = open_body(&stranger, &stranger.channel_key, 1);
    assert!(service.registry.name_channel(9, &body).is_err());
}

#[test]
fn a_lost_track_is_told_with_its_cause() {
    let mut service = Service::terminal();
    let client = service.connect();
    let status = create_track(&mut service, &client);
    let failure = ChannelFailure::other(
        ChannelFailureKind::Decode,
        "no\nkey frame".into(),
        ChannelRecordContext::new(),
    );
    let session = service.registry.sessions.get_mut(&client.session_id).unwrap();
    tell_track_lost(session, status.identity, &failure, 8).unwrap();
    match service.egress(&client).next() {
        NextRecord::Write(record_type, object_id, body) => {
            assert_eq!((record_type, object_id), (protocol::TRACK_LOST, 9));
            let payload = decode_control(&body).unwrap().payload;
            assert_eq!(field(&payload, 3), Some(protocol::ERROR_DECODER));
            assert_eq!(field(&payload, 4), Some(8));
            assert!(matches!(&payload[6].1, Value::Text(text) if text == "no key frame"));
        },
        _ => panic!("the loss was not told"),
    }
}

#[test]
fn a_track_is_queried_advanced_and_destroyed() {
    let mut service = Service::terminal();
    let client = service.connect();
    let status = create_track(&mut service, &client);
    let names = || {
        vec![
            (0, Value::Unsigned(client.context_id)),
            (1, Value::Unsigned(21)),
            (2, Value::Unsigned(9)),
        ]
    };
    assert!(matches!(
        service.request(&client, protocol::QUERY_TRACK, 9, names()),
        Step::Ask(Question::Track(track), _) if track == status.identity
    ));
    let session = service.registry.sessions.get(&client.session_id).unwrap();
    let shown = track_status(status.identity, raster_track(&client));
    match answer_track_query(session, Some(shown), 9, 2) {
        Ok(record) => assert_eq!(record.0, protocol::TRACK_STATUS),
        Err(error) => panic!("{}", error.message),
    }
    match answer_track_query(session, None, 9, 2) {
        Err(error) => assert_eq!(error.code, protocol::ERROR_NOT_FOUND),
        Ok(_) => panic!("there was no track"),
    }

    let mut advance = names();
    advance.push((3, Value::Unsigned(1)));
    advance.push((4, Value::Unsigned(2)));
    let advance = match service.request(&client, protocol::ADVANCE_CHANNEL, 9, advance) {
        Step::Ask(Question::AdvanceChannel(advance), _) => advance,
        _ => panic!("the advance was not asked about"),
    };
    assert!(check_advance(&advance, Some(1)).is_ok());
    assert!(check_advance(&advance, Some(2)).is_err());
    assert!(check_advance(&advance, None).is_err());
    let mut outputs = AudioOutputs::new();
    outputs.start(status.identity, 3);
    let session = service.registry.sessions.get_mut(&client.session_id).unwrap();
    let shown = track_status(status.identity, raster_track(&client));
    let (answer, stopped) =
        answer_advance(session, &mut outputs, status.identity, Ok(shown), 9, 2);
    assert_eq!(answer.ok().map(|record| record.0), Some(protocol::CHANNEL_ADVANCED));
    assert_eq!(stopped, Some(3));

    assert!(matches!(
        service.request(&client, protocol::DESTROY_TRACK, 9, names()),
        Step::Ask(Question::DestroyTrack(_), _)
    ));
    outputs.start(status.identity, 4);
    let (answer, stopped) =
        answer_destroyed_track(&mut outputs, status.identity, Some(Ok(())), 9, 2);
    assert_eq!(answer.ok().map(|record| record.0), Some(protocol::OK));
    assert_eq!(stopped, Some(4));
    let (answer, stopped) = answer_destroyed_track(&mut outputs, status.identity, None, 9, 2);
    assert_eq!(answer.err().map(|error| error.code), Some(protocol::ERROR_NOT_FOUND));
    assert_eq!(stopped, None);
}

#[test]
fn gain_is_negotiated_and_bounded() {
    let mut service = Service::terminal();
    let client = service.connect();
    let status = create_track(&mut service, &client);
    let payload = |gain: u64| {
        vec![
            (0, Value::Unsigned(client.context_id)),
            (1, Value::Unsigned(21)),
            (2, Value::Unsigned(9)),
            (3, Value::Unsigned(gain)),
        ]
    };
    match service.request(&client, protocol::SET_AUDIO_GAIN, 9, payload(1)) {
        Step::Refuse(error) => assert_eq!(error.code, protocol::ERROR_UNSUPPORTED_PROFILE),
        _ => panic!("gain was not negotiated"),
    }
    let session = service.registry.sessions.get_mut(&client.session_id).unwrap();
    session.accepted_profiles.push(protocol::AUDIO_GAIN.to_owned());
    assert!(matches!(
        service.request(&client, protocol::SET_AUDIO_GAIN, 9, payload(MAXIMUM_AUDIO_GAIN)),
        Step::Ask(Question::SetGain(track, MAXIMUM_AUDIO_GAIN), _) if track == status.identity
    ));
    let step =
        service.request(&client, protocol::SET_AUDIO_GAIN, 9, payload(MAXIMUM_AUDIO_GAIN + 1));
    assert!(matches!(step, Step::Refuse(_)));
    let mut outputs = AudioOutputs::new();
    outputs.start(status.identity, 3);
    let session = service.registry.sessions.get_mut(&client.session_id).unwrap();
    let shown = track_status(status.identity, raster_track(&client));
    let (answer, stream) =
        answer_gain(session, &outputs, status.identity, Some(Ok(shown)), 9, 2);
    assert!(answer.is_ok());
    assert_eq!(stream, Some(3));
}

#[test]
fn slots_are_activated_together() {
    let mut service = Service::terminal();
    let client = service.connect();
    let status = create_track(&mut service, &client);
    let binding = Value::Map(vec![
        (0, Value::Unsigned(SLOT_RASTER)),
        (1, Value::Unsigned(9)),
        (2, Value::Unsigned(1)),
        (3, Value::Unsigned(5)),
    ]);
    let payload = |bindings: Vec<Value>| {
        vec![
            (0, Value::Unsigned(client.context_id)),
            (1, Value::Unsigned(21)),
            (2, Value::Array(bindings)),
            (3, Value::Unsigned(4)),
        ]
    };
    let activation =
        match service.request(&client, protocol::ACTIVATE_TRACK, 21, payload(vec![binding])) {
            Step::Ask(Question::Activate(activation), _) => activation,
            Step::Refuse(error) => panic!("{}", error.message),
            _ => panic!("the activation was not asked about"),
        };
    assert_eq!(activation.revision, 4);
    assert_eq!(activation.bindings[0].required_milestone, 5);
    assert_eq!(activated_tracks(&activation), vec![status.identity]);
    let malformed = payload(vec![Value::Unsigned(1)]);
    assert!(matches!(
        service.request(&client, protocol::ACTIVATE_TRACK, 21, malformed),
        Step::Refuse(_)
    ));
    let session = service.registry.sessions.get_mut(&client.session_id).unwrap();
    let shown = SurfaceStatus {
        identity: activation.surface,
        revision: 5,
        generation: 1,
        definition: surface_definition(client.context_id, 21, "slots"),
        active_slots: vec![(SLOT_RASTER, 9)],
        lifecycle: ACTIVE,
    };
    match answer_activation(session, activation.surface, Ok(shown), &vec![], 2) {
        Ok(record) => {
            assert_eq!(record.0, protocol::TRACK_ACTIVATED);
            let payload = decode_control(&record.2).unwrap().payload;
            assert_eq!(payload[2].1, Value::Map(vec![(SLOT_RASTER, Value::Unsigned(9))]));
        },
        Err(error) => panic!("{}", error.message),
    }
}

#[test]
fn a_surface_is_updated_queried_and_destroyed() {
    let mut service = Service::terminal();
    let client = service.connect();
    let definition = surface_definition(client.context_id, 21, "first");
    let surface = create_surface(&mut service, &client, &definition);
    let payload = vec![
        (0, Value::Unsigned(client.context_id)),
        (1, Value::Unsigned(21)),
        (2, Value::Unsigned(1)),
        (3, Value::Unsigned(1)),
        (4, Value::Unsigned(8)),
        (5, Value::Unsigned(6)),
        (6, Value::Unsigned(1)),
        (7, Value::Unsigned(1)),
        (8, Value::Unsigned(90)),
        (9, definition.descriptor.to_value().unwrap()),
        (10, Value::Unsigned(0)),
        (11, Value::Map(vec![])),
    ];
    let envelope = match service.request(&client, protocol::UPDATE_SURFACE, 21, payload) {
        Step::Ask(Question::UpdateSurface(identity), envelope) => {
            assert_eq!(identity, surface);
            envelope
        },
        Step::Refuse(error) => panic!("{}", error.message),
        _ => panic!("the update was not asked about"),
    };
    match read_update(true, &envelope.payload) {
        Ok(update) => {
            assert_eq!((update.logical_width, update.logical_height), (8, 6));
            assert_eq!(update.rotation, 90);
            assert_eq!((update.revision, update.generation), (1, 1));
        },
        Err(error) => panic!("{}", error.message),
    }
    assert!(read_update(false, &envelope.payload).is_err());
    let mut broken = envelope.payload;
    broken[9].1 = Value::Unsigned(3);
    assert!(read_update(true, &broken).is_err());

    let shown = |revision: u64| SurfaceStatus {
        identity: surface,
        revision,
        generation: 2,
        definition: surface_definition(client.context_id, 21, "second"),
        active_slots: vec![],
        lifecycle: ACTIVE,
    };
    let session = service.registry.sessions.get_mut(&client.session_id).unwrap();
    let answer = answer_update(session, &mut service.manager, surface, 1, Ok(shown(2)), 21, 2);
    assert!(answer.is_ok());
    match answer_surface_query(Some(shown(2)), 21, 2) {
        Ok(record) => assert_eq!(record.0, protocol::SURFACE_STATUS),
        Err(error) => panic!("{}", error.message),
    }
    assert!(answer_surface_query(None, 21, 2).is_err());
    let session = service.registry.sessions.get_mut(&client.session_id).unwrap();
    let answer = answer_destroyed_surface(
        session,
        &mut service.manager,
        surface,
        Some(shown(2)),
        Ok(()),
        21,
        2,
    );
    assert_eq!(answer.ok().map(|record| record.0), Some(protocol::OK));
}

fn scene_node(client: &Client, node_id: u64) -> SceneNode {
    SceneNode {
        owning_context_id: client.context_id,
        node_id,
        surface_context_id: client.context_id,
        surface_id: 21,
        geometry: NodeGeometry::full_target().encode(),
        fit: Fit::Contain,
        linear_sampling: true,
        z_index: -3,
        visible: true,
        opacity: u16::MAX,
        clip: None,
    }
}

#[test]
fn a_transaction_is_begun_filled_and_committed() {
    let mut service = Service::terminal();
    let client = service.connect();
    let payload = vec![(0, Value::Unsigned(client.context_id)), (1, Value::Unsigned(6))];
    match service.request(&client, protocol::BEGIN_TXN, 6, payload.clone()) {
        Step::Ask(Question::BeginTransaction(context, transaction), _) => {
            assert_eq!(context.context_id, client.context_id);
            assert_eq!(transaction, 6);
        },
        _ => panic!("the transaction was not asked about"),
    }
    match answer_scene_request(Ok(()), 6, 2) {
        Ok(record) => assert_eq!(record.0, protocol::OK),
        Err(error) => panic!("{}", error.message),
    }
    // A node is changed within a transaction only.
    let node = scene_node(&client, 3).payload().unwrap();
    let step = service.request(&client, protocol::CREATE_NODE, 3, node.clone());
    assert!(matches!(step, Step::Refuse(_)));
    let mut envelope = Envelope::new(2, node);
    envelope.transaction_id = Some(6);
    let body = envelope.encode().unwrap();
    match service.serve(&client, protocol::CREATE_NODE, 3, body) {
        Step::Ask(Question::CreateNode(change), _) => {
            assert_eq!(change.transaction, 6);
            assert_eq!(change.node, scene_node(&client, 3));
        },
        _ => panic!("the node was not asked about"),
    }
    let mut envelope = Envelope::new(
        2,
        vec![(0, Value::Unsigned(client.context_id)), (1, Value::Unsigned(3))],
    );
    envelope.transaction_id = Some(6);
    assert!(matches!(
        service.serve(&client, protocol::DELETE_NODE, 3, envelope.encode().unwrap()),
        Step::Ask(Question::DeleteNode(_, 6, 3), _)
    ));

    let mut commit = Envelope::new(2, vec![(0, Value::Unsigned(0))]);
    commit.transaction_id = Some(6);
    commit.expected_target_generation = Some(1);
    commit.preconditions = vec![(0, Value::Unsigned(12))];
    let envelope =
        match service.serve(&client, protocol::COMMIT_TXN, 6, commit.encode().unwrap()) {
            Step::Ask(Question::CommitTransaction(6), envelope) => envelope,
            _ => panic!("the commit was not asked about"),
        };
    let session = service.registry.sessions.get(&client.session_id).unwrap();
    let context = session.context_identity(client.context_id).ok().unwrap();
    let plan = match read_commit_plan(
        Ok(context),
        envelope.expected_target_generation,
        &envelope.preconditions,
    ) {
        Ok(plan) => plan,
        Err(error) => panic!("{}", error.message),
    };
    assert_eq!(plan.scene_revision, Some(12));
    assert!(read_commit_plan(Ok(context), None, &vec![]).is_err());
    let session = service.registry.sessions.get_mut(&client.session_id).unwrap();
    match answer_commit(session, &plan, Ok(13), 6, 2) {
        Ok(record) => {
            assert_eq!(record.0, protocol::SCENE_PRESENTED);
            assert_eq!(field(&decode_control(&record.2).unwrap().payload, 0), Some(13));
        },
        Err(error) => panic!("{}", error.message),
    }
    // A stale target is announced before the refusal.
    let change = target_change_body(&vec![(0, Value::Unsigned(80))], 2, 1).unwrap();
    match answer_commit(session, &plan, Err(CommitRejection::StaleTarget(change)), 6, 2) {
        Err(error) => assert_eq!(error.code, protocol::ERROR_STALE_TARGET_GENERATION),
        Ok(_) => panic!("the target was stale"),
    }
    match service.egress(&client).next() {
        NextRecord::Write(record_type, _, _) => assert_eq!(record_type, protocol::TARGET_CHANGED),
        _ => panic!("the target was not announced"),
    }
    let session = service.registry.sessions.get_mut(&client.session_id).unwrap();
    match answer_commit(session, &plan, Err(CommitRejection::StaleRevision), 6, 2) {
        Err(error) => assert_eq!(error.code, protocol::ERROR_PRECONDITION_FAILED),
        Ok(_) => panic!("the revision was stale"),
    }
    let answer = answer_commit(session, &plan, Err(CommitRejection::Failed("no")), 6, 2);
    assert_eq!(answer.err().map(|error| error.message), Some("no"));
    assert_eq!(answer_abort(Ok(true), 6, 2).ok().map(|record| record.0), Some(protocol::OK));
    assert_eq!(ended_transaction(None, 6), 6);
    assert_eq!(ended_transaction(Some(4), 6), 4);
}

#[test]
fn a_scene_is_described_by_its_nodes() {
    let mut service = Service::terminal();
    let client = service.connect();
    assert!(matches!(
        service.request(&client, protocol::QUERY_SCENE, 0, vec![]),
        Step::Ask(Question::Scene, _)
    ));
    let status = SceneStatus {
        revision: 5,
        target_generation: 1,
        nodes: vec![scene_node(&client, 3), scene_node(&client, 4)],
    };
    match answer_scene_query(&status, 2) {
        Ok(record) => {
            assert_eq!(record.0, protocol::SCENE_STATUS);
            let payload = decode_control(&record.2).unwrap().payload;
            let nodes = payload.iter().find_map(|entry| match &entry.1 {
                Value::Array(nodes) => Some(nodes.len()),
                _ => None,
            });
            assert_eq!(nodes, Some(2));
        },
        Err(error) => panic!("{}", error.message),
    }
}

#[test]
fn an_anchor_is_looked_up_where_it_belongs() {
    let mut service = Service::terminal();
    let client = service.connect();
    let payload = vec![(0, Value::Unsigned(client.context_id)), (1, Value::Unsigned(7))];
    let anchor = match service.request(&client, protocol::QUERY_ANCHOR, 7, payload) {
        Step::Ask(Question::Anchor(anchor), _) => anchor,
        Step::Refuse(error) => panic!("{}", error.message),
        _ => panic!("the anchor was not asked about"),
    };
    match answer_anchor_query(anchor, 1, Some((3, -5)), 1, 2) {
        Ok(record) => assert_eq!(record.0, protocol::ANCHOR_STATUS),
        Err(error) => panic!("{}", error.message),
    }
    let payload = vec![(0, Value::Unsigned(client.context_id)), (1, Value::Unsigned(0))];
    assert!(matches!(
        service.request(&client, protocol::QUERY_ANCHOR, 7, payload),
        Step::Refuse(_)
    ));
    service.registry.notify_anchor_events(protocol::ANCHOR_GONE, &vec![anchor]);
    match service.egress(&client).next() {
        NextRecord::Write(record_type, object_id, _) => {
            assert_eq!((record_type, object_id), (protocol::ANCHOR_GONE, 7));
        },
        _ => panic!("the anchor's end was not told"),
    }
}

#[test]
fn an_outstanding_wait_does_not_block_the_control_reader() {
    let mut service = Service::terminal();
    let client = service.connect();
    let status = create_track(&mut service, &client);
    let payload = vec![
        (0, Value::Unsigned(client.context_id)),
        (1, Value::Unsigned(21)),
        (2, Value::Unsigned(9)),
        (3, Value::Unsigned(5)),
        (5, Value::Unsigned(2_000_000)),
        (6, Value::Unsigned(1)),
    ];
    let wait = match service.request(&client, protocol::WAIT_TRACK, 9, payload) {
        Step::Ask(Question::Wait(wait), _) => wait,
        Step::Refuse(error) => panic!("{}", error.message),
        _ => panic!("the wait was not asked about"),
    };
    let mut pending = PendingSet::new(4, 4);
    let answer =
        answer_wait(&mut pending, &wait, TrackWaitEvaluation::Pending, 9, 2, service.now_us);
    assert!(matches!(answer, Ok(None)));
    assert!(!pending.is_empty());
    // The reader goes on with the next request at once.
    service.query_session(&client);
    let satisfied =
        TrackWaitSatisfied { revision: 3, channel_generation: 1, observed_value: 5 };
    match answer_wait(
        &mut pending,
        &wait,
        TrackWaitEvaluation::Satisfied(satisfied),
        9,
        2,
        service.now_us,
    ) {
        Ok(Some(record)) => assert_eq!(record.0, protocol::WAIT_SATISFIED),
        _ => panic!("the wait was satisfied"),
    }
    for (evaluation, code) in [
        (TrackWaitEvaluation::NotFound, protocol::ERROR_NOT_FOUND),
        (TrackWaitEvaluation::Lost, protocol::ERROR_BAD_STATE),
        (TrackWaitEvaluation::StaleGeneration, protocol::ERROR_STALE_CHANNEL_GENERATION),
        (TrackWaitEvaluation::NotVisible, protocol::ERROR_NOT_VISIBLE),
    ] {
        let answer = answer_wait(&mut pending, &wait, evaluation, 9, 2, service.now_us);
        assert_eq!(answer.err().map(|error| error.code), Some(code));
    }
    assert_eq!(read_cancellation(&vec![(0, Value::Unsigned(2))]).ok(), Some(2));
    assert_eq!(status.identity, wait.track);
}

#[test]
fn playing_follows_one_policy() {
    let mut service = Service::terminal();
    let client = service.connect();
    let track = create_track(&mut service, &client).identity;
    let payload = |rate: i64, generation: u64| {
        vec![
            (3, Value::from(-40_i64)),
            (4, Value::Unsigned(10)),
            (5, Value::Unsigned(20)),
            (6, Value::from(rate)),
            (7, Value::Unsigned(1)),
            (8, Value::Unsigned(0)),
            (9, Value::Unsigned(1)),
            (10, Value::Unsigned(generation)),
        ]
    };
    let play = read_play(track, Some(1), &payload(PLAY_RATE, 1)).ok().unwrap();
    assert_eq!(play, PlayRequest { start_pts_us: -40, minimum_buffer_us: 10 });
    assert!(read_play(track, None, &payload(PLAY_RATE, 1)).is_err());
    assert!(read_play(track, Some(2), &payload(PLAY_RATE, 1)).is_err());
    assert!(read_play(track, Some(1), &payload(1, 1)).is_err());
    assert!(check_pause(track, true).is_ok());
    assert!(check_pause(track, false).is_err());
    assert_eq!(read_flush(track, true, &vec![(3, Value::Unsigned(4))]).ok(), Some(4));
    assert!(read_flush(track, true, &vec![]).is_err());

    let mut outputs = AudioOutputs::new();
    let mut pending = PendingSet::new(4, 4);
    let step = begin_drain(&mut pending, &outputs, track, Some(1), 9, 2).ok().unwrap();
    assert_eq!(step, DrainStep::MarkEnded);
    outputs.start(track, 3);
    let step = begin_drain(&mut pending, &outputs, track, Some(1), 9, 2).ok().unwrap();
    assert_eq!(step, DrainStep::EndStream(3));
    assert!(begin_drain(&mut pending, &outputs, track, None, 9, 2).is_err());
    let (answer, stream) = answer_playback(&outputs, track, Ok(()), 9, 2);
    assert!(answer.is_ok());
    assert_eq!(stream, Some(3));
    let (answer, stream) = answer_playback(&outputs, track, Err("no"), 9, 2);
    assert_eq!(answer.err().map(|error| error.message), Some("no"));
    assert_eq!(stream, None);
}

#[test]
fn a_drop_is_bound_offered_and_accepted_over_control() {
    let mut service = Service::terminal();
    let mut hello = service.root_hello();
    hello.required_profiles =
        sorted(&[profiles::CORE_CONTROL, profiles::TERMINAL_SURFACE, profiles::FILE_DROP]);
    service.sign_root(&mut hello);
    let secret = service.root.secret;
    let client = service.open(&hello, &secret).unwrap();
    let binding = vivid_protocol::file_drop::FileDropBinding {
        producer_epoch: vivid_protocol::revision::FileDropEpoch::new(1),
        context_id: client.context_id,
        surface_id: 0,
        surface_generation: vivid_protocol::revision::SurfaceGeneration::new(0),
        destination: Some(vivid_protocol::file_drop::FileDropDestination::ShellCwd),
        maximum_file_bytes: 1024,
        maximum_pending_offers: 4,
        maximum_active_transfers: 2,
        maximum_record_body: 4096,
        acceptance_timeout_us: vivid_protocol::file_drop::DEFAULT_FILE_DROP_ACCEPTANCE_US,
        idle_timeout_us: vivid_protocol::file_drop::DEFAULT_FILE_TRANSFER_IDLE_US,
    };
    let payload = binding.payload().unwrap();
    let (binding, surface) =
        match service.request(&client, protocol::SET_FILE_DROP_BINDING, 0, payload) {
            Step::Ask(Question::BindDrops(binding, surface), _) => (binding, surface),
            Step::Refuse(error) => panic!("{}", error.message),
            _ => panic!("the binding was not asked about"),
        };
    assert_eq!(surface, None);
    let session = service.registry.sessions.get(&client.session_id).unwrap();
    let owner = session.identity;
    match bind_drops(&mut service.manager, session, binding, surface, None, 0, 2) {
        Ok(record) => assert_eq!(record.0, protocol::FILE_DROP_BOUND),
        Err(error) => panic!("{}", error.message),
    }
    let source = || FileSource {
        handle: 1,
        length: 6,
        suggested_name: "report.txt".into(),
        generation: 0,
        cancelled: false,
    };
    service.manager.offer_local_file(Some(source()), None, service.now_us);
    let (_, offered) = service.manager.offer_local_file(Some(source()), None, service.now_us);
    let (offered_to, offer) = offered.unwrap();
    assert_eq!(offered_to, owner);
    deliver_offer(&mut service.registry, owner, &offer).unwrap();
    match service.egress(&client).next() {
        NextRecord::Write(record_type, _, body) => {
            assert_eq!(record_type, protocol::FILE_DROP_OFFER);
            let payload = decode_control(&body).unwrap().payload;
            assert!(payload
                .iter()
                .any(|entry| matches!(&entry.1, Value::Text(text) if text == "report.txt")));
        },
        _ => panic!("the offer was not told"),
    }
    assert!(deliver_offer(
        &mut service.registry,
        SessionIdentity::new(service.root.presenter, 99).unwrap(),
        &offer
    )
    .is_err());

    let tuple = vivid_protocol::file_drop::FileDropTuple {
        producer_epoch: vivid_protocol::revision::FileDropEpoch::new(1),
        grant_generation: vivid_protocol::revision::FileDropGrantGeneration::new(
            offer.binding.grant_generation,
        ),
        context_id: client.context_id,
        surface_id: 0,
        surface_generation: vivid_protocol::revision::SurfaceGeneration::new(0),
        drop_id: offer.binding.drop_id,
    };
    let acceptance = vivid_protocol::file_drop::AcceptFileDrop {
        binding: tuple,
        transfer_id: 7,
        transfer_generation: vivid_protocol::revision::FileTransferGeneration::new(1),
        maximum_record_body: 4096,
        initial_maximum_body_bytes: 1 << 20,
        initial_maximum_records: 64,
    };
    let drop_id = offer.binding.drop_id;
    let payload = acceptance.payload().unwrap();
    match service.request(&client, protocol::ACCEPT_FILE_DROP, drop_id, payload) {
        Step::Answer(record) => assert_eq!(record.0, protocol::FILE_DROP_ACCEPTED),
        Step::Refuse(error) => panic!("{}", error.message),
        _ => panic!("the acceptance was not answered"),
    }

    // The producer opens the connection that carries the file.
    let mut open = vivid_protocol::file_drop::FileTransferOpen {
        session_id: client.session_id,
        context_id: client.context_id,
        surface_id: 0,
        producer_epoch: tuple.producer_epoch,
        grant_generation: tuple.grant_generation,
        surface_generation: tuple.surface_generation,
        drop_id,
        transfer_id: 7,
        transfer_generation: vivid_protocol::revision::FileTransferGeneration::new(1),
        resume_offset: 0,
        maximum_record_body: 4096,
        maximum_body_bytes: 1 << 20,
        maximum_records: 64,
        client_nonce: [9; 16],
        authentication_tag: [0; 16],
    };
    let unsigned = open.encode().unwrap();
    open.sign(&client.channel_key);
    let signed = open.encode().unwrap();
    let first = protocol::FILE_TRANSFER_OPEN;
    let refused = |object_id: u64, sequence: u64, body: &Vec<u8>| {
        match service.registry.authenticate_transfer(first, sequence, object_id, body) {
            Err(refusal) => refusal,
            Ok(_) => panic!("the connection was opened"),
        }
    };
    assert_eq!(
        refused(7, 2, &signed),
        TransferRefusal::FirstRecord(FirstRecordRefusal::NotAnOpen)
    );
    assert_eq!(
        refused(8, 1, &signed),
        TransferRefusal::FirstRecord(FirstRecordRefusal::ObjectMismatch)
    );
    assert_eq!(refused(7, 1, &vec![0xff]), TransferRefusal::Undecodable);
    let forged = refused(7, 1, &unsigned);
    assert_eq!(forged, TransferRefusal::Rejected(7, OpenRejection::AuthenticationFailed));
    let (record_type, object_id, body) = forged.record().unwrap();
    assert_eq!((record_type, object_id), (protocol::ERROR, 7));
    let error = parse_error_reply(&body).unwrap();
    assert_eq!(error.code, protocol::ERROR_AUTH_FAILED);
    let absent = vivid_protocol::file_drop::FileTransferOpen { session_id: 99, ..open };
    assert_eq!(refused(7, 1, &absent.encode().unwrap()), TransferRefusal::SessionAbsent);
    assert!(refused(7, 1, &absent.encode().unwrap()).record().is_none());
    let opened = match service.registry.authenticate_transfer(first, 1, 7, &signed) {
        Ok(opened) => opened,
        Err(_) => panic!("the connection was refused"),
    };
    assert_eq!(opened.session, owner);
    assert!(!opened.path_negotiated);
    let started = service.manager.start_transfer(&opened, service.now_us).unwrap();
    assert_eq!((started.handle, started.length), (1, 6));
    assert_eq!(
        started.idle_timeout_us,
        vivid_protocol::file_drop::DEFAULT_FILE_TRANSFER_IDLE_US
    );
    // While that connection is live there is no other.
    match service.manager.start_transfer(&opened, service.now_us) {
        Err(refusal) => {
            assert!(matches!(refusal, TransferRefusal::Refused(7, _)));
            let (_, _, body) = refusal.record().unwrap();
            let error = parse_error_reply(&body).unwrap();
            assert_eq!(error.code, protocol::ERROR_PRECONDITION_FAILED);
        },
        Ok(_) => panic!("the transfer has a connection"),
    }

    let payload = vivid_protocol::file_drop::QueryFileDrop { drop_id }.payload().unwrap();
    match service.request(&client, protocol::QUERY_FILE_DROP, drop_id, payload) {
        Step::Answer(record) => assert_eq!(record.0, protocol::FILE_DROP_STATUS),
        Step::Refuse(error) => panic!("{}", error.message),
        _ => panic!("the query was not answered"),
    }
    let payload = vivid_protocol::file_drop::CancelFileDrop { binding: tuple, reason: 1 }
        .payload()
        .unwrap();
    match service.request(&client, protocol::CANCEL_FILE_DROP, drop_id, payload) {
        Step::Answer(record) => assert_eq!(record.0, protocol::FILE_DROP_CANCELLED),
        Step::Refuse(error) => panic!("{}", error.message),
        _ => panic!("the cancellation was not answered"),
    }
    let mut egress = Egress::detached();
    queue_cancellations(&mut egress, &vec![CancelFileDrop { binding: offer.binding, reason: 1 }]);
    assert!(matches!(egress.next(), NextRecord::Write(protocol::FILE_DROP_CANCELLED, _, _)));
}

#[test]
fn a_name_that_may_not_be_suggested_is_replaced() {
    assert_eq!(suggest_name(Some("report.txt")), "report.txt");
    assert_eq!(suggest_name(Some("../report.txt")), UNNAMED_FILE);
    assert_eq!(suggest_name(None), UNNAMED_FILE);
}

#[test]
fn a_display_change_reaches_every_live_session() {
    let mut service = Service::terminal();
    let first = service.connect();
    let second = service.connect();
    let body = target_change_body(&vec![(0, Value::Unsigned(155))], 2, 1).unwrap();
    service.registry.announce(protocol::TARGET_CHANGED, 0, &body);
    for client in [&first, &second] {
        match service.egress(client).next() {
            NextRecord::Write(record_type, _, told) => {
                assert_eq!(record_type, protocol::TARGET_CHANGED);
                assert_eq!(told, body);
            },
            _ => panic!("the change was not announced"),
        }
    }
}

#[test]
fn an_input_grant_is_renewed_until_it_is_revoked() {
    let mut service = Service::desktop();
    let mut hello = service.root_hello();
    hello.required_profiles = sorted(&[
        profiles::CORE_CONTROL,
        profiles::DESKTOP_SURFACE,
        profiles::LIVE_MEDIA,
        profiles::DESKTOP_INPUT,
    ]);
    service.sign_root(&mut hello);
    let secret = service.root.secret;
    let client = service.open(&hello, &secret).unwrap();
    service.open_lane(client.session_id, 1, &client.channel_key).unwrap();
    let shown = SurfaceInput {
        lifecycle: ACTIVE,
        generation: 1,
        capability_mask: Some(INPUT_CLASS_KEYBOARD),
        presented: true,
    };
    let granted = service.bind(&client, 5, 1, Some(shown));
    assert_eq!(field(&granted, 6), Some(grant::STATE_ENABLED));
    // A pointer was not granted.
    assert!(!service.registry.send_input(InputEvent::PointerMotion { x: 1, y: 2 }));
    let now_us = service.now_us;
    let session = service.registry.sessions.get_mut(&client.session_id).unwrap();
    session.renew_input(now_us + grant::DEFAULT_WATCHDOG_US / 2);
    let (record_type, _, _) = service.lane_next(&client).unwrap();
    assert_eq!(record_type, protocol::INPUT_LEASE_RENEW);
    service.registry.revoke_all_input(3);
    let (record_type, _, _) = service.lane_next(&client).unwrap();
    assert_eq!(record_type, protocol::INPUT_REVOKED);
    assert!(!service.registry.send_input(InputEvent::Key { usage: 4, pressed: true }));
}

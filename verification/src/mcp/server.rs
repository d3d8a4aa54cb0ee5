//! The state of the server and the rules by which it changes.
//!
//! The server keeps its sessions, a history of the last transcriptions,
//! the subscribers of each session and the audio settings. The state is
//! exclusive to its owner: a server that takes requests side by side puts
//! it behind a lock. Times are milliseconds since the start of 1970 in
//! UTC, and a session is known by the 128 bits of its UUID.

use vstd::prelude::*;
use std::collections::HashMap;
use vstd::std_specs::iter::IteratorSpec;
use vstd::string::StringExecFns;
use crate::audio::device::AudioDevice;
use crate::text::{clone_text, join3, starts_with, str_eq, strip_prefix};
use crate::trusted::{logical_cores, parse_uuid, uuid_of, uuid_text, uuid_to_text};
use crate::whisper::config::{threads_for, WhisperConfig};
use crate::whisper::language::{is_supported, Language, AUTO_DETECT};
use super::error::{VttError, VttResult};
use super::params::{
    AudioConfigurationResult, AudioDeviceInfo, AudioDevicesListResult, ConfigureAudioParams,
    GetLastTranscriptionParams, LastTranscriptionResult, StartListeningResult,
    StopListeningParams, StopListeningResult, TranscribeClipResult, TranscriptionResult,
    VadConfigInfo,
};

verus! {

broadcast use vstd::std_specs::hash::group_hash_axioms;

/// The 128 bits of the UUID of a session.
pub type SessionId = u128;

/// The most transcriptions that the history keeps.
pub const HISTORY_LIMIT: usize = 100;

/// What the address of the live transcription of a session starts with.
pub const RESOURCE_PREFIX: &'static str = "transcript://live/";

/// The model that is used where none is named.
pub const DEFAULT_MODEL_PATH: &'static str = "models/ggml-base.bin";

/// What the state of a session is.
#[derive(Debug, Clone, Copy, PartialEq, Eq, Structural)]
pub enum SessionStatus {
    Listening,
    Stopped,
    Transcribed,
    Error,
}

/// A listening session.
#[derive(Debug, Clone)]
pub struct SessionState {
    pub status: SessionStatus,
    pub start_time: i64,
    pub config: WhisperConfig,
    pub transcription: Option<TranscriptionResult>,
    pub transcription_timestamp: Option<i64>,
    pub error: Option<String>,
}

impl SessionState {
    /// The name of the status of the session.
    pub fn status_display(&self) -> (r: &'static str)
        ensures
            r@ == match self.status {
                SessionStatus::Listening => "listening"@,
                SessionStatus::Stopped => "stopped"@,
                SessionStatus::Transcribed => "transcribed"@,
                SessionStatus::Error => "error"@,
            },
    {
        match self.status {
            SessionStatus::Listening => "listening",
            SessionStatus::Stopped => "stopped",
            SessionStatus::Transcribed => "transcribed",
            SessionStatus::Error => "error",
        }
    }
}

/// Entry in the history of transcriptions: a completed transcription with
/// what it was made with.
#[derive(Debug, Clone)]
pub struct HistoryEntry {
    pub session_id: SessionId,
    pub timestamp: i64,
    pub config: WhisperConfig,
    pub transcription: TranscriptionResult,
}

/// A subscriber to the transcription stream of a session.
#[derive(Debug)]
pub struct SessionSubscriber {
    pub client_id: String,
    pub subscribed_at: i64,
}

impl Clone for SessionSubscriber {
    fn clone(&self) -> (r: Self)
        ensures
            r == *self,
    {
        SessionSubscriber { client_id: self.client_id.clone(), subscribed_at: self.subscribed_at }
    }
}

/// Real-time transcription update sent to subscribers.
#[derive(Debug, Clone)]
pub struct TranscriptionUpdate {
    pub session_id: SessionId,
    pub text: String,
    pub is_final: bool,
    pub timestamp: i64,
    pub confidence: Option<crate::level::Level>,
}

/// The audio settings that can be changed while the server runs.
#[derive(Debug, Clone)]
pub struct AudioRuntimeConfig {
    pub default_device: Option<String>,
    pub vad_config: VadConfigInfo,
}

impl Default for AudioRuntimeConfig {
    fn default() -> (r: Self)
        ensures
            r.default_device is None,
            r.vad_config == VadConfigInfo::default_spec(),
    {
        AudioRuntimeConfig { default_device: None, vad_config: VadConfigInfo::default() }
    }
}

/// The subscribers in `list` but those of the client `client_id`, in
/// their order.
pub open spec fn without_client(list: Seq<SessionSubscriber>, client_id: Seq<char>) -> Seq<
    SessionSubscriber,
>
    decreases list.len(),
{
    if list.len() == 0 {
        Seq::empty()
    } else if list.last().client_id@ == client_id {
        without_client(list.drop_last(), client_id)
    } else {
        without_client(list.drop_last(), client_id).push(list.last())
    }
}

/// The history after `entry` is stored in `history`: the entry first, then
/// the entries of before, as far as the limit allows.
pub open spec fn history_with(history: Seq<HistoryEntry>, entry: HistoryEntry) -> Seq<
    HistoryEntry,
> {
    let all = seq![entry] + history;
    if all.len() > HISTORY_LIMIT {
        all.subrange(0, HISTORY_LIMIT as int)
    } else {
        all
    }
}

/// The live transcription of a session, as a resource of the server.
#[derive(Debug)]
pub struct LiveResource {
    pub session_id: SessionId,
    pub uri: String,
    pub name: String,
    pub title: String,
    pub description: String,
    pub mime_type: String,
}

/// What the environment of the server sets, where a request leaves it
/// open.
#[derive(Debug)]
pub struct EnvSettings {
    /// The model file.
    pub model: Option<String>,
    /// The number of threads.
    pub threads: Option<usize>,
    /// Whether to use the GPU.
    pub use_gpu: Option<bool>,
}

/// What is said of a language code that is not supported.
pub open spec fn unsupported_language_message(code: Seq<char>) -> Seq<char> {
    "Unsupported language code: '"@ + code
        + "'. Use list_languages tool to see supported languages."@
}

/// The language for the engine that a request asks for: none where the
/// request names none or asks for detection, an error where it names a
/// language that is not supported.
pub open spec fn checked_language(language: Option<String>) -> Result<Option<Seq<char>>, Seq<char>> {
    match language {
        None => Ok(None),
        Some(code) => if code@ == AUTO_DETECT@ {
            Ok(None)
        } else if is_supported(code@) {
            Ok(Some(code@))
        } else {
            Err(unsupported_language_message(code@))
        },
    }
}

/// Checks the language of a request and gives the language for the
/// engine.
pub fn check_language(language: &Option<String>) -> (r: VttResult<Option<String>>)
    ensures
        r is Ok <==> checked_language(*language) is Ok,
        r is Ok ==> (r->Ok_0 is Some <==> checked_language(*language)->Ok_0 is Some),
        r is Ok && r->Ok_0 is Some ==> r->Ok_0->0@ == checked_language(*language)->Ok_0->0,
        r is Err ==> r->Err_0 is InvalidParams && r->Err_0->InvalidParams_0@ == checked_language(
            *language,
        )->Err_0,
{
    match language {
        None => Ok(None),
        Some(code) => {
            if str_eq(code.as_str(), AUTO_DETECT) {
                Ok(None)
            } else if Language::is_valid(code.as_str()) {
                Ok(Some(code.clone()))
            } else {
                Err(
                    VttError::InvalidParams(
                        join3(
                            "Unsupported language code: '",
                            code.as_str(),
                            "'. Use list_languages tool to see supported languages.",
                        ),
                    ),
                )
            }
        },
    }
}

/// The error of a request for an audio file that is not there.
pub fn missing_file_error(path: &str) -> (r: VttError)
    ensures
        r is InvalidParams,
        r->InvalidParams_0@ == "Audio file not found: "@ + path@,
{
    VttError::InvalidParams(String::from_str("Audio file not found: ").concat(path))
}

/// Checks a clip of `sample_count` samples that is to be transcribed in
/// the given language, and gives the language for the engine. A clip with
/// no samples is refused, then a language that is not supported.
pub fn check_clip(sample_count: usize, language: &Option<String>) -> (r: VttResult<Option<String>>)
    ensures
        r is Ok <==> sample_count > 0 && checked_language(*language) is Ok,
        r is Ok ==> (r->Ok_0 is Some <==> checked_language(*language)->Ok_0 is Some),
        r is Ok && r->Ok_0 is Some ==> r->Ok_0->0@ == checked_language(*language)->Ok_0->0,
        r is Err && sample_count == 0 ==> r->Err_0 is NoAudioData && r->Err_0->NoAudioData_0@
            == "Audio file contains no samples"@,
        r is Err && sample_count > 0 ==> r->Err_0 is InvalidParams
            && r->Err_0->InvalidParams_0@ == checked_language(*language)->Err_0,
{
    if sample_count == 0 {
        return Err(VttError::NoAudioData(String::from_str("Audio file contains no samples")));
    }
    check_language(language)
}

/// The first of the two that is there.
pub open spec fn first_of<T>(first: Option<T>, second: Option<T>) -> Option<T> {
    if first is Some {
        first
    } else {
        second
    }
}

/// The configuration of the engine for a request on a machine with
/// `cores` logical processor cores: what the request names goes before
/// what the environment sets, and that before the default.
pub fn resolve_config_for(
    model_path: &Option<String>,
    language: Option<String>,
    use_gpu: Option<bool>,
    threads: Option<usize>,
    env: &EnvSettings,
    cores: usize,
) -> (r: WhisperConfig)
    ensures
        r.model_path@ == match first_of(*model_path, env.model) {
            Some(path) => path@,
            None => DEFAULT_MODEL_PATH@,
        },
        r.language == language,
        r.use_gpu == match first_of(use_gpu, env.use_gpu) {
            Some(wanted) => wanted,
            None => true,
        },
        r.n_threads == threads_for(
            match first_of(threads, env.threads) {
                Some(count) => count,
                None => cores,
            },
        ),
        r.required_sample_rate == 16000,
        !r.translate,
        r.n_max_context == 0,
        r.n_max_text_tokens == 0,
        r.offset_ms == 0,
        r.duration_ms == 0,
        r.idle_timeout_secs is None,
        r.max_sessions == 4,
{
    let path = match model_path {
        Some(path) => path.clone(),
        None => match &env.model {
            Some(path) => path.clone(),
            None => String::from_str(DEFAULT_MODEL_PATH),
        },
    };
    let count = match threads {
        Some(count) => count,
        None => match env.threads {
            Some(count) => count,
            None => cores,
        },
    };
    let gpu = match use_gpu {
        Some(wanted) => wanted,
        None => match env.use_gpu {
            Some(wanted) => wanted,
            None => true,
        },
    };
    let mut config = WhisperConfig::for_machine(count, gpu);
    config.model_path = path;
    config.language = language;
    config
}

/// The configuration of the engine for a request on this machine: as
/// `resolve_config_for` gives it for the number of logical processor cores
/// of the machine.
pub fn resolve_config(
    model_path: &Option<String>,
    language: Option<String>,
    use_gpu: Option<bool>,
    threads: Option<usize>,
    env: &EnvSettings,
) -> (r: WhisperConfig)
    ensures
        r.model_path@ == match first_of(*model_path, env.model) {
            Some(path) => path@,
            None => DEFAULT_MODEL_PATH@,
        },
        r.language == language,
        r.use_gpu == match first_of(use_gpu, env.use_gpu) {
            Some(wanted) => wanted,
            None => true,
        },
        first_of(threads, env.threads) is Some ==> r.n_threads == threads_for(
            first_of(threads, env.threads)->0,
        ),
{
    let cores = match threads {
        Some(count) => count,
        None => match env.threads {
            Some(count) => count,
            None => logical_cores(),
        },
    };
    resolve_config_for(model_path, language, use_gpu, threads, env, cores)
}

/// The milliseconds from `start` to `now`, as an unsigned number of 64
/// bits: a span that goes back in time wraps around.
pub open spec fn elapsed_ms(start: i64, now: i64) -> u64 {
    if now - start >= 0 {
        if now - start <= u64::MAX {
            (now - start) as u64
        } else {
            0
        }
    } else {
        (now - start + 0x1_0000_0000_0000_0000) as u64
    }
}

/// Computes `elapsed_ms`.
fn elapsed_between(start: i64, now: i64) -> (r: u64)
    ensures
        r == elapsed_ms(start, now),
{
    let span: i128 = now as i128 - start as i128;
    if span >= 0 {
        span as u64
    } else {
        (span + 0x1_0000_0000_0000_0000) as u64
    }
}

/// A new session: it listens, and nothing is transcribed yet.
pub open spec fn new_session(config: WhisperConfig, now: i64) -> SessionState {
    SessionState {
        status: SessionStatus::Listening,
        start_time: now,
        config,
        transcription: None,
        transcription_timestamp: None,
        error: None,
    }
}

/// Whether `transcription` is what a session that listened for
/// `duration_ms` milliseconds holds as its transcription: a fixed text
/// over the time that the session listened. The audio of a session is
/// transcribed by whoever holds its capture, not by the server state.
pub open spec fn is_session_transcript(transcription: TranscriptionResult, duration_ms: u64) -> bool {
    &&& transcription.text@ == "Placeholder transcription"@
    &&& transcription.confidence is None
    &&& transcription.start_ms == 0
    &&& transcription.end_ms == duration_ms
}

/// Whether `after` is the state of the session `before` once it stopped
/// listening at the time `now`: where a transcription is asked for it
/// holds one, over the time that the session listened.
pub open spec fn is_stopped(
    before: SessionState,
    after: SessionState,
    transcribe: bool,
    now: i64,
) -> bool {
    &&& after.status == if transcribe {
        SessionStatus::Transcribed
    } else {
        SessionStatus::Stopped
    }
    &&& after.start_time == before.start_time
    &&& after.config == before.config
    &&& after.transcription is Some <==> transcribe
    &&& transcribe ==> is_session_transcript(
        after.transcription->0,
        elapsed_ms(before.start_time, now),
    )
    &&& after.transcription_timestamp == Some(now)
    &&& after.error == before.error
}

/// Whether the session `id` is there and is listening.
pub open spec fn is_listening(sessions: Map<SessionId, SessionState>, id: SessionId) -> bool {
    sessions.contains_key(id) && sessions[id].status == SessionStatus::Listening
}

/// Whether `resource` is the live transcription of the session `id`.
pub open spec fn is_live_resource(resource: LiveResource, id: SessionId) -> bool {
    &&& resource.session_id == id
    &&& resource.uri@ == RESOURCE_PREFIX@ + uuid_text(id)
    &&& resource.name@ == "session-"@ + uuid_text(id)
    &&& resource.title@ == "Live transcription for session "@ + uuid_text(id)
    &&& resource.description@ == "Real-time transcription stream"@
    &&& resource.mime_type@ == "text"@
}

/// What is said of an address to subscribe to that is none of a live
/// transcription.
pub open spec fn subscribe_uri_message() -> Seq<char> {
    "Invalid resource URI. Expected: transcript://live/{session_id}"@
}

/// The session that the resource address `uri` names: an error message
/// where it is no address of a live transcription or names no session.
pub open spec fn session_of_uri(uri: Seq<char>, bad_uri: Seq<char>) -> Result<SessionId, Seq<char>> {
    if !starts_with(uri, RESOURCE_PREFIX@) {
        Err(bad_uri)
    } else {
        match uuid_of(uri.subrange(RESOURCE_PREFIX@.len() as int, uri.len() as int)) {
            Some(id) => Ok(id),
            None => Err("Invalid session ID format"@),
        }
    }
}

/// Reads the session that a resource address names.
pub fn parse_resource_uri(uri: &str, bad_uri: &str) -> (r: VttResult<SessionId>)
    ensures
        r is Ok <==> session_of_uri(uri@, bad_uri@) is Ok,
        r is Ok ==> r->Ok_0 == session_of_uri(uri@, bad_uri@)->Ok_0,
        r is Err ==> r->Err_0 is InvalidParams && r->Err_0->InvalidParams_0@ == session_of_uri(
            uri@,
            bad_uri@,
        )->Err_0,
{
    match strip_prefix(uri, RESOURCE_PREFIX) {
        None => Err(VttError::invalid_params(bad_uri)),
        Some(rest) => match parse_uuid(rest) {
            Some(id) => Ok(id),
            None => Err(VttError::invalid_params("Invalid session ID format")),
        },
    }
}

/// Whether `info` describes `device`, marked as the default device where
/// it has the name of the chosen default device.
pub open spec fn describes(
    info: AudioDeviceInfo,
    device: AudioDevice,
    default_device: Option<String>,
) -> bool {
    &&& info.name == device.name
    &&& info.is_default == (default_device is Some && default_device->0@ == device.name@)
}

/// Whether a device of `devices` has the name `name`.
pub open spec fn has_device(devices: Seq<AudioDevice>, name: Seq<char>) -> bool {
    exists|i: int| 0 <= i < devices.len() && (#[trigger] devices[i]).name@ == name
}

/// Describes the devices, each marked where it is the chosen default
/// device.
fn device_infos(devices: &Vec<AudioDevice>, default_device: &Option<String>) -> (r: Vec<
    AudioDeviceInfo,
>)
    ensures
        r@.len() == devices@.len(),
        forall|i: int|
            0 <= i < r@.len() ==> describes(#[trigger] r@[i], devices@[i], *default_device),
{
    let mut infos: Vec<AudioDeviceInfo> = Vec::new();
    let mut i: usize = 0;
    while i < devices.len()
        invariant
            i <= devices@.len(),
            infos@.len() == i,
            forall|k: int|
                0 <= k < i ==> describes(#[trigger] infos@[k], devices@[k], *default_device),
        decreases devices@.len() - i,
    {
        let is_default = match default_device {
            Some(name) => str_eq(name.as_str(), devices[i].name.as_str()),
            None => false,
        };
        infos.push(AudioDeviceInfo { name: devices[i].name.clone(), is_default });
        i = i + 1;
    }
    infos
}

/// Whether a device of `devices` has the name `name`.
fn device_exists(devices: &Vec<AudioDevice>, name: &str) -> (r: bool)
    ensures
        r == has_device(devices@, name@),
{
    let mut i: usize = 0;
    while i < devices.len()
        invariant
            i <= devices@.len(),
            forall|k: int| 0 <= k < i ==> (#[trigger] devices@[k]).name@ != name@,
        decreases devices@.len() - i,
    {
        if str_eq(devices[i].name.as_str(), name) {
            return true;
        }
        i = i + 1;
    }
    false
}

/// The state of the voice-to-text server.
pub struct VttMcpServer {
    /// The sessions, each under its id.
    sessions: HashMap<SessionId, SessionState>,
    /// The last transcriptions, the latest first.
    transcription_history: Vec<HistoryEntry>,
    /// The audio settings.
    audio_config: AudioRuntimeConfig,
    /// The subscribers of each session that has any.
    subscribers: HashMap<SessionId, Vec<SessionSubscriber>>,
}

impl VttMcpServer {
    /// The sessions, each under its id.
    pub closed spec fn spec_sessions(&self) -> Map<SessionId, SessionState> {
        self.sessions@
    }

    /// The history of transcriptions, the latest first.
    pub closed spec fn spec_history(&self) -> Seq<HistoryEntry> {
        self.transcription_history@
    }

    /// The audio settings.
    pub closed spec fn spec_audio_config(&self) -> AudioRuntimeConfig {
        self.audio_config
    }

    /// The subscribers of the session `id`, in the order in which they
    /// subscribed.
    pub closed spec fn spec_subscribers(&self, id: SessionId) -> Seq<SessionSubscriber> {
        if self.subscribers@.contains_key(id) {
            self.subscribers@[id]@
        } else {
            Seq::empty()
        }
    }

    /// The invariant of the server: the history is within its limit, and
    /// no list of subscribers that is kept is empty.
    pub closed spec fn wf(&self) -> bool {
        &&& self.transcription_history@.len() <= HISTORY_LIMIT
        &&& forall|id: SessionId| #[trigger]
            self.subscribers@.contains_key(id) ==> self.subscribers@[id]@.len() > 0
    }

    /// The state of the session `id`, if there is such a session.
    pub open spec fn session(&self, id: SessionId) -> Option<SessionState> {
        if self.spec_sessions().contains_key(id) {
            Some(self.spec_sessions()[id])
        } else {
            None
        }
    }

    /// A server with no session, an empty history, no subscriber and the
    /// default audio settings.
    pub fn new() -> (r: Self)
        ensures
            r.wf(),
            r.spec_sessions() == Map::<SessionId, SessionState>::empty(),
            r.spec_history().len() == 0,
            r.spec_audio_config().default_device is None,
            r.spec_audio_config().vad_config == VadConfigInfo::default_spec(),
            forall|id: SessionId| (#[trigger] r.spec_subscribers(id)).len() == 0,
    {
        VttMcpServer {
            sessions: HashMap::new(),
            transcription_history: Vec::new(),
            audio_config: AudioRuntimeConfig::default(),
            subscribers: HashMap::new(),
        }
    }

    /// Stores a transcription in the history: it becomes the latest
    /// entry, and the oldest entry leaves a full history.
    pub fn store_transcription_in_history(
        &mut self,
        session_id: SessionId,
        config: WhisperConfig,
        transcription: TranscriptionResult,
        timestamp: i64,
    )
        requires
            old(self).wf(),
        ensures
            final(self).wf(),
            final(self).spec_history() == history_with(
                old(self).spec_history(),
                HistoryEntry { session_id, timestamp, config, transcription },
            ),
            final(self).spec_sessions() == old(self).spec_sessions(),
            final(self).spec_audio_config() == old(self).spec_audio_config(),
            forall|id: SessionId| #[trigger]
                final(self).spec_subscribers(id) == old(self).spec_subscribers(id),
    {
        let entry = HistoryEntry { session_id, timestamp, config, transcription };
        self.transcription_history.insert(0, entry);
        if self.transcription_history.len() > HISTORY_LIMIT {
            self.transcription_history.truncate(HISTORY_LIMIT);
        }
        assert(self.transcription_history@ =~= history_with(old(self).spec_history(), entry));
    }

    /// Add a subscriber to a session: the client becomes the last
    /// subscriber of the session.
    pub fn add_subscriber(&mut self, session_id: SessionId, client_id: String, now: i64) -> (r:
        VttResult<()>)
        requires
            old(self).wf(),
        ensures
            r is Ok,
            final(self).wf(),
            final(self).spec_subscribers(session_id) == old(self).spec_subscribers(
                session_id,
            ).push(SessionSubscriber { client_id, subscribed_at: now }),
            forall|id: SessionId|
                id != session_id ==> #[trigger] final(self).spec_subscribers(id) == old(
                    self,
                ).spec_subscribers(id),
            final(self).spec_sessions() == old(self).spec_sessions(),
            final(self).spec_history() == old(self).spec_history(),
            final(self).spec_audio_config() == old(self).spec_audio_config(),
    {
        let subscriber = SessionSubscriber { client_id, subscribed_at: now };
        let mut list = match self.subscribers.remove(&session_id) {
            Some(list) => list,
            None => Vec::new(),
        };
        list.push(subscriber);
        self.subscribers.insert(session_id, list);
        Ok(())
    }

    /// Remove a subscriber from a session: the client is no longer among
    /// the subscribers of the session, all others stay in their order.
    pub fn remove_subscriber(&mut self, session_id: SessionId, client_id: &str) -> (r: VttResult<
        (),
    >)
        requires
            old(self).wf(),
        ensures
            r is Ok,
            final(self).wf(),
            final(self).spec_subscribers(session_id) == without_client(
                old(self).spec_subscribers(session_id),
                client_id@,
            ),
            forall|id: SessionId|
                id != session_id ==> #[trigger] final(self).spec_subscribers(id) == old(
                    self,
                ).spec_subscribers(id),
            final(self).spec_sessions() == old(self).spec_sessions(),
            final(self).spec_history() == old(self).spec_history(),
            final(self).spec_audio_config() == old(self).spec_audio_config(),
    {
        match self.subscribers.remove(&session_id) {
            Some(list) => {
                let mut kept: Vec<SessionSubscriber> = Vec::new();
                let mut i: usize = 0;
                while i < list.len()
                    invariant
                        i <= list@.len(),
                        kept@ == without_client(list@.subrange(0, i as int), client_id@),
                    decreases list@.len() - i,
                {
                    proof {
                        assert(list@.subrange(0, i + 1).drop_last() =~= list@.subrange(
                            0,
                            i as int,
                        ));
                    }
                    if !str_eq(list[i].client_id.as_str(), client_id) {
                        kept.push(
                            SessionSubscriber {
                                client_id: list[i].client_id.clone(),
                                subscribed_at: list[i].subscribed_at,
                            },
                        );
                    }
                    i = i + 1;
                }
                proof {
                    assert(list@.subrange(0, list@.len() as int) =~= list@);
                }
                if kept.len() > 0 {
                    self.subscribers.insert(session_id, kept);
                }
            },
            None => {},
        }
        Ok(())
    }

    /// Get subscribers for a session, in the order in which they
    /// subscribed.
    pub fn get_subscribers(&self, session_id: SessionId) -> (r: Vec<SessionSubscriber>)
        ensures
            r@ == self.spec_subscribers(session_id),
    {
        let mut result: Vec<SessionSubscriber> = Vec::new();
        match self.subscribers.get(&session_id) {
            Some(list) => {
                let mut i: usize = 0;
                while i < list.len()
                    invariant
                        i <= list@.len(),
                        result@ == list@.subrange(0, i as int),
                    decreases list@.len() - i,
                {
                    result.push(
                        SessionSubscriber {
                            client_id: list[i].client_id.clone(),
                            subscribed_at: list[i].subscribed_at,
                        },
                    );
                    proof {
                        assert(result@ =~= list@.subrange(0, i + 1));
                    }
                    i = i + 1;
                }
                proof {
                    assert(list@.subrange(0, list@.len() as int) =~= list@);
                }
            },
            None => {},
        }
        result
    }

    /// Clean up subscribers for a session: it has none any more.
    pub fn cleanup_subscribers(&mut self, session_id: SessionId)
        requires
            old(self).wf(),
        ensures
            final(self).wf(),
            final(self).spec_subscribers(session_id) == Seq::<SessionSubscriber>::empty(),
            forall|id: SessionId|
                id != session_id ==> #[trigger] final(self).spec_subscribers(id) == old(
                    self,
                ).spec_subscribers(id),
            final(self).spec_sessions() == old(self).spec_sessions(),
            final(self).spec_history() == old(self).spec_history(),
            final(self).spec_audio_config() == old(self).spec_audio_config(),
    {
        self.subscribers.remove(&session_id);
    }

    /// The state of the session `id`, if there is such a session.
    pub fn find_session_state(&self, id: SessionId) -> (r: Option<&SessionState>)
        ensures
            r is Some <==> self.session(id) is Some,
            r is Some ==> *r->0 == self.session(id)->0,
    {
        self.sessions.get(&id)
    }

    /// The number of sessions.
    pub fn session_count(&self) -> (r: usize)
        ensures
            r == self.spec_sessions().len(),
    {
        self.sessions.len()
    }

    /// The number of transcriptions in the history.
    pub fn history_len(&self) -> (r: usize)
        ensures
            r == self.spec_history().len(),
    {
        self.transcription_history.len()
    }

    /// The audio settings.
    pub fn audio_config(&self) -> (r: &AudioRuntimeConfig)
        ensures
            *r == self.spec_audio_config(),
    {
        &self.audio_config
    }

    /// Puts the session `id` into the state `state`.
    fn put_session(&mut self, id: SessionId, state: SessionState)
        requires
            old(self).wf(),
        ensures
            final(self).wf(),
            final(self).spec_sessions() == old(self).spec_sessions().insert(id, state),
            final(self).session(id) == Some(state),
            forall|other: SessionId|
                other != id ==> #[trigger] final(self).session(other) == old(self).session(other),
            final(self).spec_history() == old(self).spec_history(),
            final(self).spec_audio_config() == old(self).spec_audio_config(),
            forall|other: SessionId| #[trigger]
                final(self).spec_subscribers(other) == old(self).spec_subscribers(other),
    {
        self.sessions.insert(id, state);
    }

    /// Starts the session `id` with the configuration `config` at the
    /// time `now`: the session listens, and nothing is transcribed yet. A
    /// session that had the id before is replaced.
    pub fn begin_session(&mut self, id: SessionId, config: WhisperConfig, now: i64) -> (r:
        StartListeningResult)
        requires
            old(self).wf(),
        ensures
            final(self).wf(),
            final(self).spec_sessions() == old(self).spec_sessions().insert(
                id,
                new_session(config, now),
            ),
            final(self).session(id) == Some(new_session(config, now)),
            forall|other: SessionId|
                other != id ==> #[trigger] final(self).session(other) == old(self).session(other),
            final(self).spec_history() == old(self).spec_history(),
            final(self).spec_audio_config() == old(self).spec_audio_config(),
            forall|other: SessionId| #[trigger]
                final(self).spec_subscribers(other) == old(self).spec_subscribers(other),
            r.session_id@ == uuid_text(id),
            r.status@ == "listening"@,
            r.start_time == now,
            r.model_path == config.model_path,
            r.language == config.language,
            r.use_gpu == config.use_gpu,
    {
        let result = StartListeningResult {
            session_id: uuid_to_text(id),
            status: String::from_str("listening"),
            start_time: now,
            model_path: config.model_path.clone(),
            language: clone_text(&config.language),
            use_gpu: config.use_gpu,
        };
        let state = SessionState {
            status: SessionStatus::Listening,
            start_time: now,
            config,
            transcription: None,
            transcription_timestamp: None,
            error: None,
        };
        self.put_session(id, state);
        result
    }

    /// Stops the session that the request names at the time `now`.
    ///
    /// The request is refused where it names no session, where there is no
    /// such session, and where the session is not listening; the server
    /// then stays as it is. Otherwise the session is stopped, with a
    /// transcription unless the request asks for none. Its subscribers are
    /// dropped, and its transcription, if it has one, is stored in the
    /// history.
    pub fn stop_listening(&mut self, params: &StopListeningParams, now: i64) -> (r: VttResult<
        StopListeningResult,
    >)
        requires
            old(self).wf(),
        ensures
            final(self).wf(),
            final(self).spec_audio_config() == old(self).spec_audio_config(),
            r is Ok <==> {
                &&& uuid_of(params.session_id@) is Some
                &&& old(self).session(uuid_of(params.session_id@)->0) is Some
                &&& old(self).session(uuid_of(params.session_id@)->0)->0.status
                    == SessionStatus::Listening
            },
            r is Err ==> {
                &&& *final(self) == *old(self)
                &&& r->Err_0 is InvalidParams
                &&& r->Err_0->InvalidParams_0@ == if uuid_of(params.session_id@) is None {
                    "Invalid session_id format"@
                } else if old(self).session(uuid_of(params.session_id@)->0) is None {
                    "Session not found"@
                } else {
                    "Session is not listening"@
                }
            },
            r is Ok ==> ({
                let id = uuid_of(params.session_id@)->0;
                let before = old(self).session(id)->0;
                let transcribe = params.transcribe != Some(false);
                &&& final(self).session(id) is Some
                &&& is_stopped(before, final(self).session(id)->0, transcribe, now)
                &&& forall|other: SessionId|
                    other != id ==> #[trigger] final(self).session(other) == old(self).session(
                        other,
                    )
                &&& final(self).spec_subscribers(id) == Seq::<SessionSubscriber>::empty()
                &&& forall|other: SessionId|
                    other != id ==> #[trigger] final(self).spec_subscribers(other) == old(
                        self,
                    ).spec_subscribers(other)
                &&& final(self).spec_history() == if transcribe {
                    history_with(
                        old(self).spec_history(),
                        HistoryEntry {
                            session_id: id,
                            timestamp: now,
                            config: before.config,
                            transcription: final(self).session(id)->0.transcription->0,
                        },
                    )
                } else {
                    old(self).spec_history()
                }
                &&& r->Ok_0.session_id@ == uuid_text(id)
                &&& r->Ok_0.status@ == if transcribe {
                    "transcribed"@
                } else {
                    "stopped"@
                }
                &&& r->Ok_0.duration_ms == elapsed_ms(before.start_time, now)
                &&& r->Ok_0.samples_captured == 0
                &&& r->Ok_0.transcription == final(self).session(id)->0.transcription
                &&& r->Ok_0.error is None
            }),
    {
        let id = match parse_uuid(params.session_id.as_str()) {
            Some(id) => id,
            None => {
                return Err(VttError::invalid_params("Invalid session_id format"));
            },
        };
        let session = match self.sessions.get(&id) {
            Some(session) => session,
            None => {
                return Err(VttError::invalid_params("Session not found"));
            },
        };
        if session.status != SessionStatus::Listening {
            return Err(VttError::invalid_params("Session is not listening"));
        }
        let duration_ms = elapsed_between(session.start_time, now);
        let transcribe = match params.transcribe {
            Some(wanted) => wanted,
            None => true,
        };
        let transcription = if transcribe {
            Some(
                TranscriptionResult {
                    text: String::from_str("Placeholder transcription"),
                    confidence: None,
                    start_ms: 0,
                    end_ms: duration_ms,
                },
            )
        } else {
            None
        };
        let config = session.config.clone();
        let stopped = SessionState {
            status: if transcribe {
                SessionStatus::Transcribed
            } else {
                SessionStatus::Stopped
            },
            start_time: session.start_time,
            config: session.config.clone(),
            transcription: match &transcription {
                Some(tx) => Some(tx.clone()),
                None => None,
            },
            transcription_timestamp: Some(now),
            error: clone_text(&session.error),
        };
        self.put_session(id, stopped);
        let ghost put = *self;
        self.cleanup_subscribers(id);
        let ghost cleaned = *self;
        match &transcription {
            Some(tx) => {
                self.store_transcription_in_history(id, config, tx.clone(), now);
            },
            None => {},
        }
        proof {
            assert forall|other: SessionId| other != id implies #[trigger] self.session(other)
                == old(self).session(other) by {
                assert(put.session(other) == old(self).session(other));
            }
            assert forall|other: SessionId| other != id implies #[trigger] self.spec_subscribers(
                other,
            ) == old(self).spec_subscribers(other) by {
                assert(cleaned.spec_subscribers(other) == put.spec_subscribers(other));
                assert(put.spec_subscribers(other) == old(self).spec_subscribers(other));
            }
            assert(self.spec_subscribers(id) == cleaned.spec_subscribers(id));
        }
        Ok(
            StopListeningResult {
                session_id: uuid_to_text(id),
                status: if transcribe {
                    String::from_str("transcribed")
                } else {
                    String::from_str("stopped")
                },
                duration_ms,
                samples_captured: 0,
                transcription,
                error: None,
            },
        )
    }

    /// The last transcription: that of the session that the request
    /// names, or the latest of the history where it names none.
    pub fn get_last_transcription(&self, params: &GetLastTranscriptionParams) -> (r: VttResult<
        LastTranscriptionResult,
    >)
        requires
            self.wf(),
        ensures
            params.session_id is Some ==> ({
                let named = uuid_of(params.session_id->0@);
                &&& r is Ok <==> named is Some && self.session(named->0) is Some && self.session(
                    named->0,
                )->0.transcription is Some
                &&& r is Err ==> r->Err_0 is InvalidParams && r->Err_0->InvalidParams_0@
                    == if named is None {
                    "Invalid session_id format"@
                } else if self.session(named->0) is None {
                    "Session not found"@
                } else {
                    "Session has no transcription"@
                }
                &&& r is Ok ==> ({
                    let session = self.session(named->0)->0;
                    &&& r->Ok_0.session_id@ == uuid_text(named->0)
                    &&& r->Ok_0.timestamp == match session.transcription_timestamp {
                        Some(at) => at,
                        None => session.start_time,
                    }
                    &&& r->Ok_0.text == session.transcription->0.text
                    &&& r->Ok_0.confidence == session.transcription->0.confidence
                    &&& r->Ok_0.start_ms == session.transcription->0.start_ms
                    &&& r->Ok_0.end_ms == session.transcription->0.end_ms
                    &&& r->Ok_0.model_path == session.config.model_path
                    &&& r->Ok_0.language == session.config.language
                })
            }),
            params.session_id is None ==> ({
                &&& r is Ok <==> self.spec_history().len() > 0
                &&& r is Err ==> r->Err_0 is Internal && r->Err_0->Internal_0@
                    == "No transcriptions available"@
                &&& r is Ok ==> ({
                    let entry = self.spec_history()[0];
                    &&& r->Ok_0.session_id@ == uuid_text(entry.session_id)
                    &&& r->Ok_0.timestamp == entry.timestamp
                    &&& r->Ok_0.text == entry.transcription.text
                    &&& r->Ok_0.confidence == entry.transcription.confidence
                    &&& r->Ok_0.start_ms == entry.transcription.start_ms
                    &&& r->Ok_0.end_ms == entry.transcription.end_ms
                    &&& r->Ok_0.model_path == entry.config.model_path
                    &&& r->Ok_0.language == entry.config.language
                })
            }),
    {
        match &params.session_id {
            Some(text) => {
                let id = match parse_uuid(text.as_str()) {
                    Some(id) => id,
                    None => {
                        return Err(VttError::invalid_params("Invalid session_id format"));
                    },
                };
                let session = match self.find_session_state(id) {
                    Some(session) => session,
                    None => {
                        return Err(VttError::invalid_params("Session not found"));
                    },
                };
                let transcription = match &session.transcription {
                    Some(transcription) => transcription,
                    None => {
                        return Err(VttError::invalid_params("Session has no transcription"));
                    },
                };
                Ok(
                    LastTranscriptionResult {
                        session_id: uuid_to_text(id),
                        timestamp: match session.transcription_timestamp {
                            Some(at) => at,
                            None => session.start_time,
                        },
                        text: transcription.text.clone(),
                        confidence: transcription.confidence,
                        start_ms: transcription.start_ms,
                        end_ms: transcription.end_ms,
                        model_path: session.config.model_path.clone(),
                        language: clone_text(&session.config.language),
                    },
                )
            },
            None => {
                if self.transcription_history.len() == 0 {
                    return Err(VttError::internal("No transcriptions available"));
                }
                let entry = &self.transcription_history[0];
                Ok(
                    LastTranscriptionResult {
                        session_id: uuid_to_text(entry.session_id),
                        timestamp: entry.timestamp,
                        text: entry.transcription.text.clone(),
                        confidence: entry.transcription.confidence,
                        start_ms: entry.transcription.start_ms,
                        end_ms: entry.transcription.end_ms,
                        model_path: entry.config.model_path.clone(),
                        language: clone_text(&entry.config.language),
                    },
                )
            },
        }
    }

    /// The ids of all sessions, each once, in no order that is stated.
    pub fn session_ids(&self) -> (r: Vec<SessionId>)
        ensures
            r@.no_duplicates(),
            forall|i: int| 0 <= i < r@.len() ==> self.spec_sessions().contains_key(#[trigger] r@[i]),
            forall|id: SessionId| self.spec_sessions().contains_key(id) ==> r@.contains(id),
    {
        let mut ids: Vec<SessionId> = Vec::new();
        let keys = self.sessions.keys();
        let ghost all = keys.remaining();
        proof {
            vstd::std_specs::hash::axiom_spec_keys_iter(&self.sessions);
        }
        for key in iter: keys
            invariant
                iter.seq() == all,
                ids@.len() == iter.index(),
                forall|i: int| 0 <= i < ids@.len() ==> #[trigger] ids@[i] == *all[i],
        {
            ids.push(*key);
        }
        proof {
            assert(ids@ =~= all.unref());
            assert forall|i: int, j: int|
                0 <= i < ids@.len() && 0 <= j < ids@.len() && i != j implies ids@[i]
                != ids@[j] by {
                assert(all[i] != all[j]);
            }
            assert forall|i: int| 0 <= i < ids@.len() implies self.sessions@.contains_key(
                #[trigger] ids@[i],
            ) by {
                assert(all.unref().to_set().contains(all.unref()[i]));
            }
            assert forall|id: SessionId| self.sessions@.contains_key(id) implies ids@.contains(
                id,
            ) by {
                assert(all.unref().to_set().contains(id));
            }
        }
        ids
    }

    /// The resources of the server: the live transcription of each session
    /// that is listening, each once, in no order that is stated.
    pub fn list_resources(&self) -> (r: Vec<LiveResource>)
        ensures
            forall|i: int|
                0 <= i < r@.len() ==> is_listening(
                    self.spec_sessions(),
                    (#[trigger] r@[i]).session_id,
                ) && is_live_resource(r@[i], r@[i].session_id),
            forall|id: SessionId|
                is_listening(self.spec_sessions(), id) ==> exists|i: int|
                    0 <= i < r@.len() && (#[trigger] r@[i]).session_id == id,
            forall|i: int, j: int|
                0 <= i < j < r@.len() ==> (#[trigger] r@[i]).session_id != (
                #[trigger] r@[j]).session_id,
    {
        let ids = self.session_ids();
        let mut resources: Vec<LiveResource> = Vec::new();
        let ghost mut picked: Seq<int> = Seq::empty();
        let mut i: usize = 0;
        while i < ids.len()
            invariant
                i <= ids@.len(),
                ids@.no_duplicates(),
                forall|k: int|
                    0 <= k < ids@.len() ==> self.sessions@.contains_key(#[trigger] ids@[k]),
                picked.len() == resources@.len(),
                forall|k: int|
                    0 <= k < picked.len() ==> 0 <= #[trigger] picked[k] < i && resources@[k].session_id
                        == ids@[picked[k]],
                forall|k: int, l: int| 0 <= k < l < picked.len() ==> picked[k] < picked[l],
                forall|k: int|
                    0 <= k < resources@.len() ==> is_listening(
                        self.sessions@,
                        (#[trigger] resources@[k]).session_id,
                    ) && is_live_resource(resources@[k], resources@[k].session_id),
                forall|m: int|
                    0 <= m < i && is_listening(self.sessions@, #[trigger] ids@[m]) ==> exists|
                        k: int,
                    |
                        0 <= k < resources@.len() && (#[trigger] resources@[k]).session_id
                            == ids@[m],
            decreases ids@.len() - i,
        {
            let id = ids[i];
            let ghost before = resources@;
            match self.sessions.get(&id) {
                Some(session) => {
                    if session.status == SessionStatus::Listening {
                        let id_text = uuid_to_text(id);
                        resources.push(
                            LiveResource {
                                session_id: id,
                                uri: String::from_str(RESOURCE_PREFIX).concat(id_text.as_str()),
                                name: String::from_str("session-").concat(id_text.as_str()),
                                title: String::from_str("Live transcription for session ").concat(
                                    id_text.as_str(),
                                ),
                                description: String::from_str("Real-time transcription stream"),
                                mime_type: String::from_str("text"),
                            },
                        );
                        proof {
                            picked = picked.push(i as int);
                            assert forall|m: int|
                                0 <= m < i + 1 && is_listening(
                                    self.sessions@,
                                    #[trigger] ids@[m],
                                ) implies exists|k: int|
                                0 <= k < resources@.len() && (#[trigger] resources@[k]).session_id
                                    == ids@[m] by {
                                if m < i {
                                    let k = choose|k: int|
                                        0 <= k < before.len() && (#[trigger] before[k]).session_id
                                            == ids@[m];
                                    assert(resources@[k].session_id == ids@[m]);
                                } else {
                                    assert(resources@[resources@.len() - 1].session_id == ids@[m]);
                                }
                            }
                        }
                    }
                },
                None => {},
            }
            proof {
                if resources@.len() == before.len() {
                    assert forall|m: int|
                        0 <= m < i + 1 && is_listening(
                            self.sessions@,
                            #[trigger] ids@[m],
                        ) implies exists|k: int|
                        0 <= k < resources@.len() && (#[trigger] resources@[k]).session_id
                            == ids@[m] by {
                        assert(m < i);
                        let k = choose|k: int|
                            0 <= k < before.len() && (#[trigger] before[k]).session_id == ids@[m];
                        assert(resources@[k].session_id == ids@[m]);
                    }
                }
            }
            i = i + 1;
        }
        proof {
            assert forall|id: SessionId| is_listening(self.sessions@, id) implies exists|k: int|
                0 <= k < resources@.len() && (#[trigger] resources@[k]).session_id == id by {
                assert(ids@.contains(id));
                let m = choose|m: int| 0 <= m < ids@.len() && ids@[m] == id;
                assert(is_listening(self.sessions@, ids@[m]));
            }
            assert forall|k: int, l: int| 0 <= k < l < resources@.len() implies (
            #[trigger] resources@[k]).session_id != (#[trigger] resources@[l]).session_id by {
                assert(picked[k] < picked[l]);
                assert(ids@[picked[k]] != ids@[picked[l]]);
            }
        }
        resources
    }

    /// Subscribes the client to the live transcription that the address
    /// names: the client becomes the last subscriber of the session. The
    /// request is refused where the address is none of a live
    /// transcription, or names no session or one that is not there.
    pub fn subscribe(&mut self, uri: &str, client_id: String, now: i64) -> (r: VttResult<()>)
        requires
            old(self).wf(),
        ensures
            final(self).wf(),
            final(self).spec_sessions() == old(self).spec_sessions(),
            final(self).spec_history() == old(self).spec_history(),
            final(self).spec_audio_config() == old(self).spec_audio_config(),
            r is Ok <==> session_of_uri(uri@, subscribe_uri_message()) is Ok && old(self).session(
                session_of_uri(uri@, subscribe_uri_message())->Ok_0,
            ) is Some,
            r is Err ==> {
                &&& *final(self) == *old(self)
                &&& r->Err_0 is InvalidParams
                &&& r->Err_0->InvalidParams_0@ == match session_of_uri(
                    uri@,
                    subscribe_uri_message(),
                ) {
                    Err(message) => message,
                    Ok(_) => "Session not found"@,
                }
            },
            r is Ok ==> ({
                let id = session_of_uri(uri@, subscribe_uri_message())->Ok_0;
                &&& final(self).spec_subscribers(id) == old(self).spec_subscribers(id).push(
                    SessionSubscriber { client_id, subscribed_at: now },
                )
                &&& forall|other: SessionId|
                    other != id ==> #[trigger] final(self).spec_subscribers(other) == old(
                        self,
                    ).spec_subscribers(other)
            }),
    {
        let id = match parse_resource_uri(
            uri,
            "Invalid resource URI. Expected: transcript://live/{session_id}",
        ) {
            Ok(id) => id,
            Err(error) => {
                return Err(error);
            },
        };
        if self.find_session_state(id).is_none() {
            return Err(VttError::invalid_params("Session not found"));
        }
        self.add_subscriber(id, client_id, now)
    }

    /// Ends the subscription of the client to the live transcription that
    /// the address names. The request is refused where the address is none
    /// of a live transcription or names no session.
    pub fn unsubscribe(&mut self, uri: &str, client_id: &str) -> (r: VttResult<()>)
        requires
            old(self).wf(),
        ensures
            final(self).wf(),
            final(self).spec_sessions() == old(self).spec_sessions(),
            final(self).spec_history() == old(self).spec_history(),
            final(self).spec_audio_config() == old(self).spec_audio_config(),
            r is Ok <==> session_of_uri(uri@, "Invalid resource URI"@) is Ok,
            r is Err ==> {
                &&& *final(self) == *old(self)
                &&& r->Err_0 is InvalidParams
                &&& r->Err_0->InvalidParams_0@ == session_of_uri(
                    uri@,
                    "Invalid resource URI"@,
                )->Err_0
            },
            r is Ok ==> ({
                let id = session_of_uri(uri@, "Invalid resource URI"@)->Ok_0;
                &&& final(self).spec_subscribers(id) == without_client(
                    old(self).spec_subscribers(id),
                    client_id@,
                )
                &&& forall|other: SessionId|
                    other != id ==> #[trigger] final(self).spec_subscribers(other) == old(
                        self,
                    ).spec_subscribers(other)
            }),
    {
        let id = match parse_resource_uri(uri, "Invalid resource URI") {
            Ok(id) => id,
            Err(error) => {
                return Err(error);
            },
        };
        self.remove_subscriber(id, client_id)
    }

    /// Reads the live transcription that the address names: the text that
    /// was transcribed in the session, or a note that there is none yet.
    pub fn read_resource(&self, uri: &str) -> (r: VttResult<String>)
        ensures
            r is Ok <==> session_of_uri(uri@, "Invalid resource URI"@) is Ok && self.session(
                session_of_uri(uri@, "Invalid resource URI"@)->Ok_0,
            ) is Some,
            r is Err ==> r->Err_0 is InvalidParams && r->Err_0->InvalidParams_0@
                == match session_of_uri(uri@, "Invalid resource URI"@) {
                Err(message) => message,
                Ok(_) => "Session not found"@,
            },
            r is Ok ==> r->Ok_0@ == match self.session(
                session_of_uri(uri@, "Invalid resource URI"@)->Ok_0,
            )->0.transcription {
                Some(transcription) => transcription.text@,
                None => "No transcription yet"@,
            },
    {
        let id = match parse_resource_uri(uri, "Invalid resource URI") {
            Ok(id) => id,
            Err(error) => {
                return Err(error);
            },
        };
        match self.find_session_state(id) {
            None => Err(VttError::invalid_params("Session not found")),
            Some(session) => match &session.transcription {
                Some(transcription) => Ok(transcription.text.clone()),
                None => Ok(String::from_str("No transcription yet")),
            },
        }
    }

    /// Lists the given audio devices, each marked where it is the chosen
    /// default device, and names the default device: the chosen one, else
    /// the first device, else "default".
    pub fn list_audio_devices(&self, devices: &Vec<AudioDevice>) -> (r: AudioDevicesListResult)
        ensures
            r.devices@.len() == devices@.len(),
            forall|i: int|
                0 <= i < devices@.len() ==> describes(
                    #[trigger] r.devices@[i],
                    devices@[i],
                    self.spec_audio_config().default_device,
                ),
            r.default_device@ == match self.spec_audio_config().default_device {
                Some(name) => name@,
                None => if devices@.len() > 0 {
                    devices@[0].name@
                } else {
                    "default"@
                },
            },
    {
        let default_device = match &self.audio_config.default_device {
            Some(name) => name.clone(),
            None => if devices.len() > 0 {
                devices[0].name.clone()
            } else {
                String::from_str("default")
            },
        };
        AudioDevicesListResult {
            devices: device_infos(devices, &self.audio_config.default_device),
            default_device,
        }
    }

    /// Changes the audio settings as the request asks: the default device,
    /// which must be one of the given devices, and the sensitivity of
    /// voice activity detection, which is restricted to the range from
    /// zero to one. Where the device is not there the request is refused
    /// and the settings stay as they are.
    pub fn configure_audio(&mut self, params: &ConfigureAudioParams, devices: &Vec<AudioDevice>) -> (r:
        VttResult<AudioConfigurationResult>)
        requires
            old(self).wf(),
        ensures
            final(self).wf(),
            final(self).spec_sessions() == old(self).spec_sessions(),
            final(self).spec_history() == old(self).spec_history(),
            forall|id: SessionId| #[trigger]
                final(self).spec_subscribers(id) == old(self).spec_subscribers(id),
            r is Err <==> params.device_name is Some && !has_device(
                devices@,
                params.device_name->0@,
            ),
            r is Err ==> {
                &&& *final(self) == *old(self)
                &&& r->Err_0 is DeviceNotFound
                &&& r->Err_0->DeviceNotFound_0@ == params.device_name->0@
            },
            r is Ok ==> {
                &&& final(self).spec_audio_config().default_device == if params.device_name
                    is Some {
                    params.device_name
                } else {
                    old(self).spec_audio_config().default_device
                }
                &&& final(self).spec_audio_config().vad_config == (VadConfigInfo {
                    energy_threshold: match params.vad_sensitivity {
                        Some(level) => level.spec_clamp_unit(),
                        None => old(self).spec_audio_config().vad_config.energy_threshold,
                    },
                    ..old(self).spec_audio_config().vad_config
                })
                &&& r->Ok_0.default_device == final(self).spec_audio_config().default_device
                &&& r->Ok_0.vad_config == final(self).spec_audio_config().vad_config
                &&& r->Ok_0.available_devices@.len() == devices@.len()
                &&& forall|i: int|
                    0 <= i < devices@.len() ==> describes(
                        #[trigger] r->Ok_0.available_devices@[i],
                        devices@[i],
                        final(self).spec_audio_config().default_device,
                    )
            },
    {
        match &params.device_name {
            Some(name) => {
                if !device_exists(devices, name.as_str()) {
                    return Err(VttError::device_not_found(name.as_str()));
                }
                self.audio_config.default_device = Some(name.clone());
            },
            None => {},
        }
        match params.vad_sensitivity {
            Some(level) => {
                self.audio_config.vad_config.energy_threshold = level.clamp_unit();
            },
            None => {},
        }
        Ok(
            AudioConfigurationResult {
                default_device: clone_text(&self.audio_config.default_device),
                vad_config: self.audio_config.vad_config,
                available_devices: device_infos(devices, &self.audio_config.default_device),
            },
        )
    }

    /// Takes the transcription of a clip that lasts `duration_ms`
    /// milliseconds: it is stored in the history under the id
    /// `session_id`, and is given back as the result of the request.
    pub fn record_clip(
        &mut self,
        session_id: SessionId,
        config: WhisperConfig,
        text: String,
        duration_ms: u64,
        now: i64,
    ) -> (r: TranscribeClipResult)
        requires
            old(self).wf(),
        ensures
            final(self).wf(),
            final(self).spec_history() == history_with(
                old(self).spec_history(),
                HistoryEntry {
                    session_id,
                    timestamp: now,
                    config,
                    transcription: TranscriptionResult {
                        text,
                        confidence: None,
                        start_ms: 0,
                        end_ms: duration_ms,
                    },
                },
            ),
            final(self).spec_sessions() == old(self).spec_sessions(),
            final(self).spec_audio_config() == old(self).spec_audio_config(),
            forall|id: SessionId| #[trigger]
                final(self).spec_subscribers(id) == old(self).spec_subscribers(id),
            r.text == text,
            r.confidence is None,
            r.start_ms == 0,
            r.end_ms == duration_ms,
    {
        let result = TranscribeClipResult {
            text: text.clone(),
            confidence: None,
            start_ms: 0,
            end_ms: duration_ms,
        };
        let entry = TranscriptionResult {
            text,
            confidence: None,
            start_ms: 0,
            end_ms: duration_ms,
        };
        self.store_transcription_in_history(session_id, config, entry, now);
        result
    }
}

impl Default for VttMcpServer {
    fn default() -> (r: Self)
        ensures
            r.wf(),
            r.spec_sessions() == Map::<SessionId, SessionState>::empty(),
            r.spec_history().len() == 0,
    {
        Self::new()
    }
}

} // verus!

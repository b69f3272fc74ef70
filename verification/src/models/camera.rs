//! Camera data models and the JSON text of camera updates.

use vstd::prelude::*;

use crate::text::same_text;

verus! {

/// Represents a camera in the UniFi Protect system.
#[derive(Debug)]
pub struct Camera {
    /// Unique identifier for the camera.
    pub id: String,
    /// Human-readable name of the camera.
    pub name: String,
    /// Current recording settings for the camera.
    pub recording_settings: RecordingSettings,
}

/// Recording configuration for a camera.
#[derive(Debug)]
pub struct RecordingSettings {
    /// The current recording mode for the camera.
    pub mode: RecordingMode,
}

/// Defines when a camera should record video.
#[derive(Clone, Copy, PartialEq, Eq, Structural, Debug)]
pub enum RecordingMode {
    /// Record continuously, 24/7.
    Always,
    /// Record based on a configured schedule.
    Schedule,
    /// Never record video.
    Never,
}

/// Structure for updating camera settings; every field is optional.
pub struct CameraUpdate {
    /// If `None`, recording settings will not be modified.
    pub recording_settings: Option<RecordingSettingsUpdate>,
}

/// Update structure for camera recording settings.
pub struct RecordingSettingsUpdate {
    /// If `None`, the recording mode will remain unchanged.
    pub mode: Option<RecordingMode>,
}

/// The name of a recording mode in the API: the variant's name in camel case.
pub open spec fn mode_name(mode: RecordingMode) -> Seq<char> {
    match mode {
        RecordingMode::Always => "always"@,
        RecordingMode::Schedule => "schedule"@,
        RecordingMode::Never => "never"@,
    }
}

/// The JSON text of a recording settings update: the new mode's name under
/// `mode`, and no `mode` at all when the mode is to stay as it is.
pub open spec fn settings_update_json(update: RecordingSettingsUpdate) -> Seq<char> {
    match update.mode {
        Some(m) => "{\"mode\":\""@ + mode_name(m) + "\"}"@,
        None => "{}"@,
    }
}

/// The JSON text of a camera update: the recording settings under
/// `recordingSettings`, left out when there are none.
pub open spec fn camera_update_json(update: CameraUpdate) -> Seq<char> {
    match update.recording_settings {
        Some(settings) => "{\"recordingSettings\":"@ + settings_update_json(settings) + "}"@,
        None => "{}"@,
    }
}

impl RecordingMode {
    /// The name of the mode in the API.
    pub fn wire_name(&self) -> (name: &'static str)
        ensures
            name@ == mode_name(*self),
    {
        match self {
            RecordingMode::Always => "always",
            RecordingMode::Schedule => "schedule",
            RecordingMode::Never => "never",
        }
    }

    /// The mode that the API calls `name`, if any.
    pub fn from_wire_name(name: &str) -> (mode: Option<RecordingMode>)
        ensures
            mode matches Some(m) ==> mode_name(m) == name@,
            mode is None ==> forall|m: RecordingMode| mode_name(m) != name@,
    {
        if same_text(name, "always") {
            Some(RecordingMode::Always)
        } else if same_text(name, "schedule") {
            Some(RecordingMode::Schedule)
        } else if same_text(name, "never") {
            Some(RecordingMode::Never)
        } else {
            proof {
                assert forall|m: RecordingMode| mode_name(m) != name@ by {
                    match m {
                        RecordingMode::Always => {},
                        RecordingMode::Schedule => {},
                        RecordingMode::Never => {},
                    }
                }
            }
            None
        }
    }
}

/// The names of the recording modes differ, so a name leads back to its mode.
pub proof fn law_mode_name_round_trip(m: RecordingMode, n: RecordingMode)
    ensures
        mode_name(m) == mode_name(n) ==> m == n,
{
    reveal_strlit("always");
    reveal_strlit("schedule");
    reveal_strlit("never");
    assert("always"@.len() == 6);
    assert("schedule"@.len() == 8);
    assert("never"@.len() == 5);
}

/// How long the JSON text of a camera update is.
proof fn lemma_camera_update_json_len(update: CameraUpdate)
    ensures
        camera_update_json(update).len() == match update.recording_settings {
            None => 2nat,
            Some(settings) => match settings.mode {
                None => 24nat,
                Some(RecordingMode::Never) => 38nat,
                Some(RecordingMode::Always) => 39nat,
                Some(RecordingMode::Schedule) => 41nat,
            },
        },
{
    reveal_strlit("always");
    reveal_strlit("schedule");
    reveal_strlit("never");
    reveal_strlit("{}");
    reveal_strlit("}");
    reveal_strlit("\"}");
    reveal_strlit("{\"mode\":\"");
    reveal_strlit("{\"recordingSettings\":");
}

/// Different camera updates have different JSON texts: the body of a
/// `PATCH` tells exactly which change was asked for.
pub proof fn law_camera_update_json_injective(a: CameraUpdate, b: CameraUpdate)
    requires
        camera_update_json(a) == camera_update_json(b),
    ensures
        a.recording_settings matches Some(sa) ==> (b.recording_settings matches Some(sb) && sa.mode == sb.mode),
        a.recording_settings is None ==> b.recording_settings is None,
{
    lemma_camera_update_json_len(a);
    lemma_camera_update_json_len(b);
}

/// The JSON text of an update that sets a mode carries that mode's name.
pub proof fn law_camera_update_json_names_mode(update: CameraUpdate, mode: RecordingMode)
    requires
        update.recording_settings matches Some(settings) && settings.mode == Some(mode),
    ensures
        camera_update_json(update)
            == "{\"recordingSettings\":"@ + "{\"mode\":\""@ + mode_name(mode) + "\"}"@ + "}"@,
{
}

impl RecordingSettingsUpdate {
    /// The JSON text of this update.
    pub fn to_json(&self) -> (text: String)
        ensures
            text@ == settings_update_json(*self),
    {
        match self.mode {
            Some(m) => {
                let mut text = String::from_str("{\"mode\":\"");
                text.append(m.wire_name());
                text.append("\"}");
                text
            },
            None => String::from_str("{}"),
        }
    }
}

impl CameraUpdate {
    /// The JSON text of this update, as sent in the body of the `PATCH`.
    pub fn to_json(&self) -> (text: String)
        ensures
            text@ == camera_update_json(*self),
    {
        match &self.recording_settings {
            Some(settings) => {
                let mut text = String::from_str("{\"recordingSettings\":");
                let inner = settings.to_json();
                text.append(inner.as_str());
                text.append("}");
                text
            },
            None => String::from_str("{}"),
        }
    }
}

} // verus!

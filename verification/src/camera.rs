//! A player camera position extracted from a game event: the camera
//! save and camera update payloads converted into plain scaled
//! coordinates.

use vstd::prelude::*;

use crate::emit::{scale_pos, spec_scale_pos};
use crate::events::{GamePayloadV, MapPos, ReplayEvent, ReplayEventV};

verus! {

/// Divisor that rescales raw camera coordinates into world units for a
/// 3D scene; an alternative to the map-unit divisor used by the marker
/// emissions. Several incompatible ratios have been used by different
/// capture versions, so both are named and selectable.
pub const CAMERA_SCALE: u64 = 27_000;

/// A camera position a player set, in coordinates scaled by the chosen
/// divisor.
#[derive(Clone, Copy, PartialEq, Eq, Structural, Debug)]
pub struct PlayerCamera {
    /// The hotkey slot of a saved camera; a plain movement has none.
    pub which: Option<i64>,
    /// The scaled camera target.
    pub pos: MapPos,
    /// The player that set the camera.
    pub player: i64,
}

/// Why an event yields no camera position.
#[derive(Clone, Copy, PartialEq, Eq, Structural, Debug)]
pub enum CameraError {
    /// The event is not from the game stream.
    NotGame,
    /// The game event is not of the requested camera kind.
    NotCameraEvent,
    /// The camera update carries no target.
    NoTarget,
}

impl PlayerCamera {
    /// Extracts a saved camera position: succeeds exactly on game
    /// events with a camera-save payload.
    pub fn try_from_camera_save(source: &ReplayEvent, divisor: u64) -> (r: Result<
        PlayerCamera,
        CameraError,
    >)
        requires
            divisor >= 1,
        ensures
            match source@ {
                ReplayEventV::Game { user_id, event, .. } => match event {
                    GamePayloadV::CameraSave { which, target } => r == Ok::<
                        PlayerCamera,
                        CameraError,
                    >(
                        PlayerCamera {
                            which: Some(which),
                            pos: spec_scale_pos(target, divisor),
                            player: user_id,
                        },
                    ),
                    _ => r == Err::<PlayerCamera, CameraError>(CameraError::NotCameraEvent),
                },
                ReplayEventV::Tracker { .. } => r == Err::<PlayerCamera, CameraError>(
                    CameraError::NotGame,
                ),
            },
    {
        match source {
            ReplayEvent::Game { user_id, event, .. } => match event {
                crate::events::GamePayload::CameraSave { which, target } => Ok(
                    PlayerCamera {
                        which: Some(*which),
                        pos: scale_pos(*target, divisor),
                        player: *user_id,
                    },
                ),
                _ => Err(CameraError::NotCameraEvent),
            },
            ReplayEvent::Tracker { .. } => Err(CameraError::NotGame),
        }
    }

    /// Extracts a camera movement: succeeds exactly on game events with
    /// a camera-update payload that carries a target.
    pub fn try_from_camera_update(source: &ReplayEvent, divisor: u64) -> (r: Result<
        PlayerCamera,
        CameraError,
    >)
        requires
            divisor >= 1,
        ensures
            match source@ {
                ReplayEventV::Game { user_id, event, .. } => match event {
                    GamePayloadV::CameraUpdate { target } => match target {
                        Some(t) => r == Ok::<PlayerCamera, CameraError>(
                            PlayerCamera {
                                which: None,
                                pos: spec_scale_pos(t, divisor),
                                player: user_id,
                            },
                        ),
                        None => r == Err::<PlayerCamera, CameraError>(CameraError::NoTarget),
                    },
                    _ => r == Err::<PlayerCamera, CameraError>(CameraError::NotCameraEvent),
                },
                ReplayEventV::Tracker { .. } => r == Err::<PlayerCamera, CameraError>(
                    CameraError::NotGame,
                ),
            },
    {
        match source {
            ReplayEvent::Game { user_id, event, .. } => match event {
                crate::events::GamePayload::CameraUpdate { target } => match target {
                    Some(t) => Ok(
                        PlayerCamera { which: None, pos: scale_pos(*t, divisor), player: *user_id },
                    ),
                    None => Err(CameraError::NoTarget),
                },
                _ => Err(CameraError::NotCameraEvent),
            },
            ReplayEvent::Tracker { .. } => Err(CameraError::NotGame),
        }
    }
}

} // verus!

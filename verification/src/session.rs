//! Voice-session signaling commands.
//!
//! Joining or leaving a voice channel is requested through the gateway with
//! a voice-state update: opcode 4, the guild, and the target channel
//! (`None` to leave).  The engine builds the command value; the process
//! around it serializes and sends it.

use vstd::prelude::*;

verus! {

/// Gateway opcode of a voice-state update.
pub const VOICE_STATE_OPCODE: u64 = 4;

/// A voice-state update to send over the gateway, shaped as
/// `{op: 4, d: {guild_id, channel_id, self_mute, self_deaf}}`.
#[derive(Clone, Copy, Debug, PartialEq, Eq, Structural)]
pub struct VoiceGatewayCommand {
    /// Always `VOICE_STATE_OPCODE`.
    pub opcode: u64,
    /// Guild whose voice state changes.
    pub guild_id: u64,
    /// Channel to join, or `None` to leave.
    pub channel_id: Option<u64>,
    /// Whether the bot mutes itself.
    pub self_mute: bool,
    /// Whether the bot deafens itself.
    pub self_deaf: bool,
}

/// The join command for a guild and channel.
pub open spec fn spec_join_command(guild_id: u64, channel_id: u64) -> VoiceGatewayCommand {
    VoiceGatewayCommand {
        opcode: VOICE_STATE_OPCODE,
        guild_id,
        channel_id: Some(channel_id),
        self_mute: false,
        self_deaf: false,
    }
}

/// The leave command for a guild.
pub open spec fn spec_leave_command(guild_id: u64) -> VoiceGatewayCommand {
    VoiceGatewayCommand {
        opcode: VOICE_STATE_OPCODE,
        guild_id,
        channel_id: None,
        self_mute: false,
        self_deaf: false,
    }
}

impl VoiceGatewayCommand {
    /// Builds the command that joins `channel_id` in `guild_id`.
    pub fn join(guild_id: u64, channel_id: u64) -> (c: VoiceGatewayCommand)
        ensures
            c == spec_join_command(guild_id, channel_id),
    {
        VoiceGatewayCommand {
            opcode: VOICE_STATE_OPCODE,
            guild_id,
            channel_id: Some(channel_id),
            self_mute: false,
            self_deaf: false,
        }
    }

    /// Builds the command that leaves the voice channel in `guild_id`.
    pub fn leave(guild_id: u64) -> (c: VoiceGatewayCommand)
        ensures
            c == spec_leave_command(guild_id),
    {
        VoiceGatewayCommand {
            opcode: VOICE_STATE_OPCODE,
            guild_id,
            channel_id: None,
            self_mute: false,
            self_deaf: false,
        }
    }
}

} // verus!

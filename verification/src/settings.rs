//! The choice of codec that is made when a service binding is generated.

use vstd::prelude::*;

verus! {

/// The path of the codec that moves messages as plain bytes.
pub const PROST_CODEC_PATH: &'static str = "tonic::codec::ProstCodec";

/// The path of the codec that moves messages as zero-copy archives.
pub const RKYV_CODEC_PATH: &'static str = "tonic::codec::RkyvCodec";

/// The path that a binding names: the archive codec's where the archive
/// codec is switched on, the byte codec's where it is not.
pub open spec fn selected_path(archive_codec: bool) -> Seq<char> {
    if archive_codec {
        RKYV_CODEC_PATH@
    } else {
        PROST_CODEC_PATH@
    }
}

/// What a generated service binding is built with.
#[derive(Debug, Clone)]
pub struct CompileSettings {
    pub codec_path: String,
}

impl CompileSettings {
    /// The settings for a build with the archive codec switched on or off.
    /// The switch is read once, here; nothing looks at it again.
    pub fn new(archive_codec: bool) -> (settings: Self)
        ensures
            settings.codec_path@ == selected_path(archive_codec),
    {
        let path = if archive_codec {
            RKYV_CODEC_PATH
        } else {
            PROST_CODEC_PATH
        };
        CompileSettings { codec_path: path.to_string() }
    }
}

/// Exactly one codec is named: whatever the switch, the path is one of the
/// two, and the two differ, so a binding never names both.
pub proof fn lemma_one_codec_selected(archive_codec: bool)
    ensures
        selected_path(archive_codec) == RKYV_CODEC_PATH@ <==> archive_codec,
        selected_path(archive_codec) == PROST_CODEC_PATH@ <==> !archive_codec,
{
    reveal_strlit("tonic::codec::ProstCodec");
    reveal_strlit("tonic::codec::RkyvCodec");
    // The two paths part ways at the first letter of the codec's own name.
    assert(PROST_CODEC_PATH@[14] == 'P');
    assert(RKYV_CODEC_PATH@[14] == 'R');
}

} // verus!

use rkyv_codec::settings::{CompileSettings, PROST_CODEC_PATH, RKYV_CODEC_PATH};

#[test]
fn archive_codec_switched_on_names_the_archive_codec() {
    let settings = CompileSettings::new(true);
    assert_eq!(settings.codec_path, "tonic::codec::RkyvCodec");
}

#[test]
fn archive_codec_switched_off_names_the_byte_codec() {
    let settings = CompileSettings::new(false);
    assert_eq!(settings.codec_path, "tonic::codec::ProstCodec");
}

#[test]
fn the_two_codec_paths_differ() {
    assert_eq!(PROST_CODEC_PATH, "tonic::codec::ProstCodec");
    assert_eq!(RKYV_CODEC_PATH, "tonic::codec::RkyvCodec");
    assert_ne!(CompileSettings::new(true).codec_path, CompileSettings::new(false).codec_path);
}

#[test]
fn settings_can_be_cloned() {
    let settings = CompileSettings::new(true);
    let copy = settings.clone();
    assert_eq!(copy.codec_path, settings.codec_path);
}

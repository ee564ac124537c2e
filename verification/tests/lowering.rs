use jpegli::sys::raw::{
    jpegli_rs_output, jpegli_rs_pixel_format, jpegli_rs_status, jpegli_rs_subsampling,
};
use jpegli::sys::{self, EncodeErrorKind};
use jpegli::{map_sys_error, ChromaSubsampling, Encoder, EncoderConfig, Error, ImageView, PixelFormat};

#[test]
fn pixel_formats_lower_to_shim_formats() {
    assert_eq!(PixelFormat::Rgb8.as_sys(), jpegli_rs_pixel_format::JPEGLI_RS_PIXEL_FORMAT_RGB8);
    assert_eq!(PixelFormat::Rgba8.as_sys(), jpegli_rs_pixel_format::JPEGLI_RS_PIXEL_FORMAT_RGBA8);
    assert_eq!(PixelFormat::Gray8.as_sys(), jpegli_rs_pixel_format::JPEGLI_RS_PIXEL_FORMAT_GRAY8);
    assert_eq!(jpegli_rs_pixel_format::JPEGLI_RS_PIXEL_FORMAT_GRAY8.value(), 1);
    assert_eq!(jpegli_rs_pixel_format::JPEGLI_RS_PIXEL_FORMAT_RGB8.value(), 3);
    assert_eq!(jpegli_rs_pixel_format::JPEGLI_RS_PIXEL_FORMAT_RGBA8.value(), 4);
}

#[test]
fn subsampling_lowers_to_shim_modes() {
    let pairs = [
        (ChromaSubsampling::Auto, jpegli_rs_subsampling::JPEGLI_RS_SUBSAMPLING_AUTO, 0),
        (ChromaSubsampling::Cs444, jpegli_rs_subsampling::JPEGLI_RS_SUBSAMPLING_444, 1),
        (ChromaSubsampling::Cs422, jpegli_rs_subsampling::JPEGLI_RS_SUBSAMPLING_422, 2),
        (ChromaSubsampling::Cs420, jpegli_rs_subsampling::JPEGLI_RS_SUBSAMPLING_420, 3),
    ];
    for (mode, raw, value) in pairs {
        assert_eq!(mode.as_sys(), raw);
        assert_eq!(raw.value(), value);
    }
}

#[test]
fn status_values() {
    assert_eq!(jpegli_rs_status::JPEGLI_RS_STATUS_OK.value(), 0);
    assert_eq!(jpegli_rs_status::JPEGLI_RS_STATUS_INVALID_ARGUMENT.value(), 1);
    assert_eq!(jpegli_rs_status::JPEGLI_RS_STATUS_ENCODE_ERROR.value(), 2);
    assert_eq!(jpegli_rs_status::JPEGLI_RS_STATUS_INTERNAL_ERROR.value(), 3);
}

#[test]
fn prepared_request_carries_config_and_image() {
    let icc = vec![9u8, 8, 7];
    let encoder = Encoder::new(EncoderConfig {
        distance: Some(1.5f32.to_bits()),
        progressive: true,
        subsampling: ChromaSubsampling::Cs420,
        baseline_compatible: true,
        icc_profile: Some(icc.clone()),
        ..EncoderConfig::default()
    })
    .unwrap();
    let pixels = [1u8; 24];
    let image = ImageView {
        width: 2,
        height: 3,
        format: PixelFormat::Rgba8,
        stride: 8,
        data: &pixels,
    };
    let (config, view) = encoder.prepare_encode(&image).unwrap();
    assert_eq!(config.quality, None);
    assert_eq!(config.distance, Some(1.5f32.to_bits()));
    assert!(config.progressive);
    assert!(config.optimize_coding);
    assert!(config.baseline_compatible);
    assert_eq!(config.subsampling, jpegli_rs_subsampling::JPEGLI_RS_SUBSAMPLING_420);
    assert_eq!(config.icc_profile, Some(&icc[..]));
    assert_eq!(view.width, 2);
    assert_eq!(view.height, 3);
    assert_eq!(view.stride, 8);
    assert_eq!(view.pixel_format, jpegli_rs_pixel_format::JPEGLI_RS_PIXEL_FORMAT_RGBA8);
    assert_eq!(view.data, &pixels[..]);

    // The shim layer accepts what the encoder prepared, and lays it out for the ABI.
    let (raw_config, raw_image) = sys::prepare_encode(&config, &view).unwrap();
    assert_eq!(raw_config.has_quality, 0);
    assert_eq!(raw_config.quality, 0);
    assert_eq!(raw_config.has_distance, 1);
    assert_eq!(raw_config.distance, 1.5f32.to_bits());
    assert_eq!(raw_config.progressive, 1);
    assert_eq!(raw_config.optimize_coding, 1);
    assert_eq!(raw_config.baseline_compatible, 1);
    assert_eq!(raw_config._reserved0, 0);
    assert_eq!(raw_config.subsampling, 3);
    assert_eq!(raw_config.icc_profile, Some(&icc[..]));
    assert_eq!(raw_config.icc_profile_len, 3);
    assert_eq!(raw_image.width, 2);
    assert_eq!(raw_image.height, 3);
    assert_eq!(raw_image.stride, 8);
    assert_eq!(raw_image.pixel_format, 4);
    assert_eq!(raw_image.data_len, 24);
}

#[test]
fn raw_config_without_options() {
    let config = sys::EncodeConfig {
        quality: Some(75),
        distance: None,
        progressive: false,
        optimize_coding: false,
        baseline_compatible: false,
        subsampling: jpegli_rs_subsampling::JPEGLI_RS_SUBSAMPLING_444,
        icc_profile: None,
    };
    let raw = config.as_raw();
    assert_eq!(raw.has_quality, 1);
    assert_eq!(raw.quality, 75);
    assert_eq!(raw.has_distance, 0);
    assert_eq!(raw.distance, 0);
    assert_eq!(raw.progressive, 0);
    assert_eq!(raw.optimize_coding, 0);
    assert_eq!(raw.subsampling, 1);
    assert_eq!(raw.icc_profile, None);
    assert_eq!(raw.icc_profile_len, 0);
}

#[test]
fn shim_layer_config_errors() {
    let config = sys::EncodeConfig {
        quality: Some(90),
        distance: Some(1.0f32.to_bits()),
        progressive: false,
        optimize_coding: true,
        baseline_compatible: false,
        subsampling: jpegli_rs_subsampling::JPEGLI_RS_SUBSAMPLING_AUTO,
        icc_profile: None,
    };
    let pixels = [0u8; 3];
    let image = sys::ImageView {
        width: 1,
        height: 1,
        stride: 3,
        pixel_format: jpegli_rs_pixel_format::JPEGLI_RS_PIXEL_FORMAT_RGB8,
        data: &pixels,
    };
    let err = sys::prepare_encode(&config, &image).unwrap_err();
    assert_eq!(err.kind, EncodeErrorKind::InvalidConfig);
    assert_eq!(err.message.as_deref(), Some("quality and distance are mutually exclusive"));

    let empty: [u8; 0] = [];
    let config = sys::EncodeConfig { distance: None, icc_profile: Some(&empty), ..config };
    let err = config.validate().unwrap_err();
    assert_eq!(err.kind, EncodeErrorKind::InvalidConfig);
    assert_eq!(err.message.as_deref(), Some("icc_profile must not be empty"));
}

#[test]
fn shim_layer_image_errors() {
    let config = sys::EncodeConfig {
        quality: None,
        distance: None,
        progressive: false,
        optimize_coding: true,
        baseline_compatible: false,
        subsampling: jpegli_rs_subsampling::JPEGLI_RS_SUBSAMPLING_AUTO,
        icc_profile: None,
    };
    let pixels = [0u8; 7];
    let image = sys::ImageView {
        width: 2,
        height: 2,
        stride: 4,
        pixel_format: jpegli_rs_pixel_format::JPEGLI_RS_PIXEL_FORMAT_RGB8,
        data: &pixels,
    };
    let err = sys::prepare_encode(&config, &image).unwrap_err();
    assert_eq!(err.kind, EncodeErrorKind::InvalidArgument);
    assert_eq!(
        err.message.as_deref(),
        Some("stride must be at least width * bytes_per_pixel")
    );
    let gray = sys::ImageView {
        pixel_format: jpegli_rs_pixel_format::JPEGLI_RS_PIXEL_FORMAT_GRAY8,
        ..image
    };
    // 4 * 1 + 2 = 6 bytes are needed, 7 are there.
    assert!(gray.validate().is_ok());
    let gray_short = sys::ImageView { data: &pixels[..5], ..gray };
    let err = gray_short.validate().unwrap_err();
    assert_eq!(err.kind, EncodeErrorKind::InvalidArgument);
    assert_eq!(
        err.message.as_deref(),
        Some("input buffer is too small for the image view")
    );
}

#[test]
fn finish_hands_back_bytes_on_success() {
    let output = jpegli_rs_output { data: Some(vec![0xFF, 0xD8, 0xFF, 0xD9]), error_message: None };
    let bytes = sys::finish_encode(jpegli_rs_status::JPEGLI_RS_STATUS_OK, output).unwrap();
    assert_eq!(bytes, vec![0xFF, 0xD8, 0xFF, 0xD9]);
    assert_eq!(Encoder::finish_encode(Ok(bytes.clone())).unwrap(), bytes);
}

#[test]
fn finish_refuses_success_without_buffer() {
    let output = jpegli_rs_output { data: None, error_message: Some("ignored".to_owned()) };
    let err = sys::finish_encode(jpegli_rs_status::JPEGLI_RS_STATUS_OK, output).unwrap_err();
    assert_eq!(err.kind, EncodeErrorKind::InvalidArgument);
    assert_eq!(
        err.message.as_deref(),
        Some("encoder returned success without an output buffer")
    );
    assert_eq!(
        Encoder::finish_encode(Err(err)).unwrap_err(),
        Error::InvalidImage("ffi rejected the provided image")
    );
}

#[test]
fn finish_maps_failing_statuses() {
    let cases = [
        (jpegli_rs_status::JPEGLI_RS_STATUS_INVALID_ARGUMENT, EncodeErrorKind::InvalidArgument),
        (jpegli_rs_status::JPEGLI_RS_STATUS_ENCODE_ERROR, EncodeErrorKind::EncodeFailed),
        (jpegli_rs_status::JPEGLI_RS_STATUS_INTERNAL_ERROR, EncodeErrorKind::Internal),
    ];
    for (status, kind) in cases {
        let output = jpegli_rs_output { data: Some(vec![1, 2]), error_message: Some("boom".to_owned()) };
        let err = sys::finish_encode(status, output).unwrap_err();
        assert_eq!(err.kind, kind);
        assert_eq!(err.message.as_deref(), Some("boom"));
        let output = jpegli_rs_output { data: None, error_message: None };
        let err = sys::finish_encode(status, output).unwrap_err();
        assert_eq!(err.kind, kind);
        assert_eq!(err.message, None);
    }
}

#[test]
fn shim_message_reaches_caller() {
    for status in [
        jpegli_rs_status::JPEGLI_RS_STATUS_ENCODE_ERROR,
        jpegli_rs_status::JPEGLI_RS_STATUS_INTERNAL_ERROR,
    ] {
        let output = jpegli_rs_output { data: None, error_message: Some("Bogus marker".to_owned()) };
        let low = sys::finish_encode(status, output);
        assert_eq!(
            Encoder::finish_encode(low).unwrap_err(),
            Error::EncodeFailed("Bogus marker".to_owned())
        );
    }
}

#[test]
fn map_sys_error_cases() {
    let e = |kind, message: Option<&str>| sys::EncodeError { kind, message: message.map(str::to_owned) };
    assert_eq!(
        map_sys_error(e(EncodeErrorKind::InvalidConfig, Some("x"))),
        Error::InvalidConfig("ffi rejected the provided encoder config")
    );
    assert_eq!(
        map_sys_error(e(EncodeErrorKind::InvalidArgument, None)),
        Error::InvalidImage("ffi rejected the provided image")
    );
    assert_eq!(
        map_sys_error(e(EncodeErrorKind::EncodeFailed, Some("bad"))),
        Error::EncodeFailed("bad".to_owned())
    );
    assert_eq!(
        map_sys_error(e(EncodeErrorKind::EncodeFailed, None)),
        Error::EncodeFailed("jpegli encode failed".to_owned())
    );
    assert_eq!(
        map_sys_error(e(EncodeErrorKind::Internal, Some("oops"))),
        Error::EncodeFailed("oops".to_owned())
    );
    assert_eq!(
        map_sys_error(e(EncodeErrorKind::Internal, None)),
        Error::Internal("jpegli internal error")
    );
}

#[test]
fn encode_error_texts() {
    let with = sys::EncodeError { kind: EncodeErrorKind::Internal, message: Some("msg".to_owned()) };
    assert_eq!(with.to_string(), "msg");
    let names = [
        (EncodeErrorKind::InvalidConfig, "InvalidConfig"),
        (EncodeErrorKind::InvalidArgument, "InvalidArgument"),
        (EncodeErrorKind::EncodeFailed, "EncodeFailed"),
        (EncodeErrorKind::Internal, "Internal"),
    ];
    for (kind, name) in names {
        assert_eq!(sys::EncodeError { kind, message: None }.to_string(), name);
        assert_eq!(format!("{kind:?}"), name);
    }
}

#[test]
fn cloned_encoder_keeps_its_config() {
    let encoder = Encoder::new(EncoderConfig {
        quality: Some(55),
        icc_profile: Some(vec![4, 5]),
        ..EncoderConfig::default()
    })
    .unwrap();
    let copy = encoder.clone();
    let pixels = [0u8; 4];
    let image = ImageView { width: 2, height: 2, format: PixelFormat::Gray8, stride: 2, data: &pixels };
    let (a, _) = encoder.prepare_encode(&image).unwrap();
    let (b, _) = copy.prepare_encode(&image).unwrap();
    assert_eq!(a.quality, b.quality);
    assert_eq!(a.icc_profile, b.icc_profile);
}

#[test]
fn every_row_of_an_accepted_image_is_in_bounds() {
    // Width 3 in RGBA takes 12 bytes per row; stride 15, height 3: 15 * 2 + 12 = 42 bytes.
    let data = vec![0u8; 42];
    let image = ImageView { width: 3, height: 3, format: PixelFormat::Rgba8, stride: 15, data: &data };
    assert!(image.validate().is_ok());
    for r in 0..image.height as usize {
        let start = r * image.stride;
        assert!(start + 12 <= image.data.len());
        assert!(12 <= image.stride);
    }
}

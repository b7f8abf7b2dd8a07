use jay_compositor::backends::metal::video::drm_props::create_default_properties;
use jay_compositor::backends::metal::video::drm_props::plane_type_from_name;
use jay_compositor::backends::metal::video::drm_props::possible_planes;
use jay_compositor::backends::metal::video::drm_props::DefaultValue;
use jay_compositor::backends::metal::video::drm_props::DrmPropertyType;
use jay_compositor::backends::metal::video::drm_props::PropertyDefinition;
use jay_compositor::backends::metal::video::PlaneType;

fn members(names: &[(&str, u64)]) -> Vec<(Vec<u8>, u64)> {
    names.iter().map(|(n, v)| (n.as_bytes().to_vec(), *v)).collect()
}

#[test]
fn default_properties_take_each_kind() {
    let defs = vec![
        Some(PropertyDefinition { id: 10, ty: DrmPropertyType::Other }),
        Some(PropertyDefinition {
            id: 11,
            ty: DrmPropertyType::Enum {
                values: members(&[("off", 0), ("on", 1)]),
                bitmask: false,
            },
        }),
        Some(PropertyDefinition {
            id: 12,
            ty: DrmPropertyType::Enum {
                values: members(&[("rotate-0", 0), ("rotate-90", 1), ("reflect-x", 4)]),
                bitmask: true,
            },
        }),
        Some(PropertyDefinition { id: 13, ty: DrmPropertyType::Range { min: 0, max: 16 } }),
        Some(PropertyDefinition { id: 14, ty: DrmPropertyType::SignedRange { lowest: -7, signed_max: 7 } }),
        None,
    ];
    let defaults = vec![
        ("CTM".to_string(), DefaultValue::Fixed(0)),
        ("dither".to_string(), DefaultValue::Enum(b"off".to_vec())),
        (
            "rotation".to_string(),
            DefaultValue::Bitmask(vec![b"rotate-0".to_vec(), b"reflect-x".to_vec()]),
        ),
        ("max bpc".to_string(), DefaultValue::RangeMax),
        ("offset".to_string(), DefaultValue::RangeMax),
        ("alpha".to_string(), DefaultValue::RangeMax),
    ];
    let r = create_default_properties(&defs, &defaults);
    let got: Vec<(String, u32, u64)> = r.iter().map(|p| (p.name.clone(), p.prop, p.value)).collect();
    assert_eq!(
        got,
        vec![
            ("CTM".to_string(), 10, 0),
            ("dither".to_string(), 11, 0),
            ("rotation".to_string(), 12, 0b10001),
            ("max bpc".to_string(), 13, 16),
            ("offset".to_string(), 14, 7),
        ]
    );
}

#[test]
fn default_properties_skip_what_does_not_fit() {
    let enum_def = |bitmask: bool| {
        Some(PropertyDefinition {
            id: 20,
            ty: DrmPropertyType::Enum { values: members(&[("Default", 3)]), bitmask },
        })
    };
    let defs = vec![
        enum_def(true),
        enum_def(false),
        enum_def(false),
        enum_def(true),
        Some(PropertyDefinition { id: 21, ty: DrmPropertyType::Other }),
    ];
    let defaults = vec![
        ("a".to_string(), DefaultValue::Enum(b"Default".to_vec())),
        ("b".to_string(), DefaultValue::Enum(b"Missing".to_vec())),
        ("c".to_string(), DefaultValue::Bitmask(vec![b"Default".to_vec()])),
        ("d".to_string(), DefaultValue::Bitmask(vec![b"Default".to_vec(), b"Missing".to_vec()])),
        ("e".to_string(), DefaultValue::RangeMax),
    ];
    assert!(create_default_properties(&defs, &defaults).is_empty());
}

#[test]
fn plane_types_by_name() {
    assert_eq!(plane_type_from_name(b"Overlay"), Some(PlaneType::Overlay));
    assert_eq!(plane_type_from_name(b"Primary"), Some(PlaneType::Primary));
    assert_eq!(plane_type_from_name(b"Cursor"), Some(PlaneType::Cursor));
    assert_eq!(plane_type_from_name(b"cursor"), None);
    assert_eq!(plane_type_from_name(b""), None);
}

#[test]
fn planes_possible_on_a_crtc() {
    assert_eq!(possible_planes(1, &[0b01, 0b10, 0b11, 0]), vec![1, 2]);
    assert_eq!(possible_planes(0, &[0b01, 0b10, 0b11, 0]), vec![0, 2]);
    assert!(possible_planes(5, &[0b01, 0b10]).is_empty());
}

use editor_core::command::Command;
use editor_core::handle::Handle;
use editor_core::handlers::{handle_camera_property_changed, modify_skybox, SkyBoxFace};
use editor_core::inspector::{FieldKind, FieldValue, PropertyChanged, SenderHelper};
use editor_core::scene::{Base, Camera, Exposure, Node, RectValue, ScalarBits, SkyBox, Texture,
    TextureState};

fn sb(v: f32) -> ScalarBits {
    ScalarBits { bits: v.to_bits() }
}

fn loaded(id: u64) -> Option<Texture> {
    Some(Texture { id, state: TextureState::Loaded })
}

fn six_faces() -> SkyBox {
    SkyBox {
        front: loaded(1),
        back: loaded(2),
        left: loaded(3),
        right: loaded(4),
        top: loaded(5),
        bottom: loaded(6),
    }
}

fn camera_with_skybox(sky_box: Option<SkyBox>) -> Camera {
    Camera {
        base: Base { visibility: true, depth_offset: sb(0.0) },
        exposure: Exposure::Manual(sb(1.0)),
        z_near: sb(0.1),
        z_far: sb(1000.0),
        fov: sb(1.2),
        viewport: RectValue { x: sb(0.0), y: sb(0.0), w: sb(1.0), h: sb(1.0) },
        enabled: true,
        sky_box,
        environment: None,
        color_grading_lut: None,
        color_grading_enabled: false,
    }
}

fn face_changed(face: &str, value: Option<Texture>) -> PropertyChanged {
    PropertyChanged {
        name: "SkyBox".to_string(),
        value: FieldKind::Inspectable(Box::new(PropertyChanged {
            name: face.to_string(),
            value: FieldKind::Object(FieldValue::OptTexture(value)),
        })),
    }
}

#[test]
fn replacing_one_face_keeps_the_other_five() {
    let camera = camera_with_skybox(Some(six_faces()));
    let x = loaded(30);
    let rebuilt = modify_skybox(&camera, x, SkyBoxFace::Left).expect("rebuild");
    assert_eq!(
        rebuilt,
        SkyBox {
            front: loaded(1),
            back: loaded(2),
            left: x,
            right: loaded(4),
            top: loaded(5),
            bottom: loaded(6),
        }
    );
}

#[test]
fn replacing_a_face_with_failed_texture_is_rejected() {
    let camera = camera_with_skybox(Some(six_faces()));
    let failing = Some(Texture { id: 30, state: TextureState::Failed });
    assert_eq!(modify_skybox(&camera, failing, SkyBoxFace::Left), None);
    // The camera still holds the original six faces: nothing was committed.
    assert_eq!(camera.sky_box, Some(six_faces()));
}

#[test]
fn clearing_a_face_needs_no_load() {
    let camera = camera_with_skybox(Some(six_faces()));
    let rebuilt = modify_skybox(&camera, None, SkyBoxFace::Top).expect("rebuild");
    assert_eq!(rebuilt.top, None);
    assert_eq!(rebuilt.front, loaded(1));
    assert_eq!(rebuilt.bottom, loaded(6));
}

#[test]
fn camera_without_skybox_rejects_face_edit() {
    let camera = camera_with_skybox(None);
    assert_eq!(modify_skybox(&camera, loaded(30), SkyBoxFace::Front), None);
}

#[test]
fn front_face_edit_end_to_end() {
    // Inspector reports {field_path: ["SkyBox", "Front"], payload: Texture(T)}
    // against a camera whose current faces are {A, B, C, D, E, F}.
    let node = Node::Camera(camera_with_skybox(Some(six_faces())));
    let handle = Handle::new(7, 3);
    let t = loaded(42);
    let args = face_changed("Front", t);
    let mut helper = SenderHelper::new();
    let r = handle_camera_property_changed(&args, handle, &node, &mut helper);
    assert_eq!(r, Some(()));
    assert_eq!(
        helper.commands,
        vec![Command::SetSkyBox {
            handle,
            value: Some(SkyBox {
                front: t,
                back: loaded(2),
                left: loaded(3),
                right: loaded(4),
                top: loaded(5),
                bottom: loaded(6),
            }),
        }]
    );
}

#[test]
fn front_face_edit_with_failing_load_reaches_no_sink() {
    let node = Node::Camera(camera_with_skybox(Some(six_faces())));
    let handle = Handle::new(7, 3);
    let t = Some(Texture { id: 42, state: TextureState::Failed });
    let args = face_changed("Front", t);
    let mut helper = SenderHelper::new();
    let r = handle_camera_property_changed(&args, handle, &node, &mut helper);
    assert_eq!(r, None);
    assert!(helper.commands.is_empty());
}

#[test]
fn unknown_face_name_rejected() {
    let node = Node::Camera(camera_with_skybox(Some(six_faces())));
    let handle = Handle::new(7, 3);
    let args = face_changed("Middle", loaded(42));
    let mut helper = SenderHelper::new();
    let r = handle_camera_property_changed(&args, handle, &node, &mut helper);
    assert_eq!(r, None);
    assert!(helper.commands.is_empty());
}

#[test]
fn every_face_name_addresses_its_slot() {
    let node = Node::Camera(camera_with_skybox(Some(six_faces())));
    let handle = Handle::new(7, 3);
    let x = loaded(50);
    let cases: Vec<(&str, SkyBox)> = vec![
        ("Front", SkyBox { front: x, ..six_faces() }),
        ("Back", SkyBox { back: x, ..six_faces() }),
        ("Left", SkyBox { left: x, ..six_faces() }),
        ("Right", SkyBox { right: x, ..six_faces() }),
        ("Top", SkyBox { top: x, ..six_faces() }),
        ("Bottom", SkyBox { bottom: x, ..six_faces() }),
    ];
    for (name, expected) in cases {
        let args = face_changed(name, x);
        let mut helper = SenderHelper::new();
        let r = handle_camera_property_changed(&args, handle, &node, &mut helper);
        assert_eq!(r, Some(()), "face {}", name);
        assert_eq!(helper.commands, vec![Command::SetSkyBox { handle, value: Some(expected) }]);
    }
}

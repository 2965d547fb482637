//! The dispatch bridge: pattern-matching a field-change descriptor against a
//! node's variant and field-name table, and producing at most one reversible
//! command.
//!
//! Policy throughout: an unrecognized variant, field name or payload tag, a
//! failed cast, or a resource whose load did not finish successfully all
//! resolve silently to "no command" — the bridge never panics and never
//! mutates the node itself; it only describes the mutation and appends it to
//! the command sink.

use vstd::prelude::*;
use crate::command::{command_handle, command_with_handle, Command};
use crate::handle::Handle;
use crate::inspector::{name_is, FieldKind, FieldValue, PropertyChanged, SenderHelper};
use crate::scene::{Camera, ColorGradingLut, Exposure, Node, SkyBox, Texture};

verus! {

/// One of the six cube-map slots.
#[derive(Clone, Copy, Debug, PartialEq, Eq, Structural)]
pub enum SkyBoxFace {
    Left,
    Right,
    Top,
    Bottom,
    Front,
    Back,
}

/// The cube map with exactly the addressed slot replaced and the other five
/// copied unchanged.
pub open spec fn replaced_sky_box(sky_box: SkyBox, texture: Option<Texture>, face: SkyBoxFace) -> SkyBox {
    SkyBox {
        front: if face is Front { texture } else { sky_box.front },
        back: if face is Back { texture } else { sky_box.back },
        left: if face is Left { texture } else { sky_box.left },
        right: if face is Right { texture } else { sky_box.right },
        top: if face is Top { texture } else { sky_box.top },
        bottom: if face is Bottom { texture } else { sky_box.bottom },
    }
}

/// What replacing one face of the camera's cube map yields: `None` when the
/// camera has no cube map, and `None` when the incoming texture's load did
/// not finish successfully; otherwise the wholesale-rebuilt cube map.
pub open spec fn modify_skybox_spec(camera: Camera, texture: Option<Texture>, face: SkyBoxFace) -> Option<SkyBox> {
    match camera.sky_box {
        Some(sky_box) => {
            if texture matches Some(t) && !t.is_loaded_spec() {
                None
            } else {
                Some(replaced_sky_box(sky_box, texture, face))
            }
        },
        None => None,
    }
}

/// Rebuild the camera's six-face cube map with one face replaced, awaiting
/// the replacement texture's load first. A missing cube map or a failed load
/// rejects the whole edit; the camera itself is never touched.
pub fn modify_skybox(camera: &Camera, texture: Option<Texture>, face: SkyBoxFace) -> (r: Option<
    SkyBox>)
    ensures
        r == modify_skybox_spec(*camera, texture, face),
{
    if let Some(sky_box) = camera.sky_box {
        if let Some(t) = texture {
            if !t.block_on_load() {
                return None;
            }
        }
        Some(
            SkyBox {
                front: if face == SkyBoxFace::Front { texture } else { sky_box.front },
                back: if face == SkyBoxFace::Back { texture } else { sky_box.back },
                left: if face == SkyBoxFace::Left { texture } else { sky_box.left },
                right: if face == SkyBoxFace::Right { texture } else { sky_box.right },
                top: if face == SkyBoxFace::Top { texture } else { sky_box.top },
                bottom: if face == SkyBoxFace::Bottom { texture } else { sky_box.bottom },
            },
        )
    } else {
        None
    }
}

/// The base-field table shared by every node variant: which command a
/// descriptor over the common base properties yields, independent of the
/// variant it is embedded in.
pub open spec fn base_property_command(args: PropertyChanged, handle: Handle) -> Option<Command> {
    match args.value {
        FieldKind::Object(value) => {
            if args.name@ == "Visibility"@ {
                match value.cast_bool_spec() {
                    Some(v) => Some(Command::SetVisibility { handle, value: v }),
                    None => None,
                }
            } else if args.name@ == "DepthOffset"@ {
                match value.cast_scalar_spec() {
                    Some(v) => Some(Command::SetDepthOffset { handle, value: v }),
                    None => None,
                }
            } else {
                None
            }
        },
        _ => None,
    }
}

/// The camera's table of simple (terminal-payload) fields.
pub open spec fn camera_object_command(name: Seq<char>, value: FieldValue, handle: Handle) -> Option<Command> {
    if name == "Exposure"@ {
        match value.cast_exposure_spec() {
            Some(v) => Some(Command::SetExposure { handle, value: v }),
            None => None,
        }
    } else if name == "ZNear"@ {
        match value.cast_scalar_spec() {
            Some(v) => Some(Command::SetZNear { handle, value: v }),
            None => None,
        }
    } else if name == "ZFar"@ {
        match value.cast_scalar_spec() {
            Some(v) => Some(Command::SetZFar { handle, value: v }),
            None => None,
        }
    } else if name == "Fov"@ {
        match value.cast_scalar_spec() {
            Some(v) => Some(Command::SetFov { handle, value: v }),
            None => None,
        }
    } else if name == "Viewport"@ {
        match value.cast_rect_spec() {
            Some(v) => Some(Command::SetViewport { handle, value: v }),
            None => None,
        }
    } else if name == "Enabled"@ {
        match value.cast_bool_spec() {
            Some(v) => Some(Command::SetCameraPreview { handle, value: v }),
            None => None,
        }
    } else if name == "SkyBox"@ {
        match value.cast_opt_sky_box_spec() {
            Some(v) => Some(Command::SetSkyBox { handle, value: v }),
            None => None,
        }
    } else if name == "Environment"@ {
        match value.cast_opt_texture_spec() {
            Some(v) => Some(Command::SetEnvironmentMap { handle, value: v }),
            None => None,
        }
    } else if name == "ColorGradingLut"@ {
        match value.cast_opt_color_grading_lut_spec() {
            Some(v) => Some(Command::SetColorGradingLut { handle, value: v }),
            None => None,
        }
    } else if name == "ColorGradingEnabled"@ {
        match value.cast_bool_spec() {
            Some(v) => Some(Command::SetColorGradingEnabled { handle, value: v }),
            None => None,
        }
    } else {
        None
    }
}

/// The exposure sub-object's field table. Editing an automatic-exposure
/// level rebuilds the whole exposure value from the camera's current one
/// with that single level replaced; if the camera is currently on manual
/// exposure, the edit resolves to the unchanged manual value.
pub open spec fn exposure_inner_command(inner: PropertyChanged, handle: Handle, camera: Camera) -> Option<Command> {
    match inner.value {
        FieldKind::Object(value) => {
            if inner.name@ == "KeyValue"@ {
                match camera.exposure {
                    Exposure::Auto { key_value, min_luminance, max_luminance } => {
                        match value.cast_scalar_spec() {
                            Some(v) => Some(
                                Command::SetExposure {
                                    handle,
                                    value: Exposure::Auto {
                                        key_value: v,
                                        min_luminance,
                                        max_luminance,
                                    },
                                },
                            ),
                            None => None,
                        }
                    },
                    Exposure::Manual(m) => Some(
                        Command::SetExposure { handle, value: Exposure::Manual(m) },
                    ),
                }
            } else if inner.name@ == "MinLuminance"@ {
                match camera.exposure {
                    Exposure::Auto { key_value, min_luminance, max_luminance } => {
                        match value.cast_scalar_spec() {
                            Some(v) => Some(
                                Command::SetExposure {
                                    handle,
                                    value: Exposure::Auto {
                                        key_value,
                                        min_luminance: v,
                                        max_luminance,
                                    },
                                },
                            ),
                            None => None,
                        }
                    },
                    Exposure::Manual(m) => Some(
                        Command::SetExposure { handle, value: Exposure::Manual(m) },
                    ),
                }
            } else if inner.name@ == "MaxLuminance"@ {
                match camera.exposure {
                    Exposure::Auto { key_value, min_luminance, max_luminance } => {
                        match value.cast_scalar_spec() {
                            Some(v) => Some(
                                Command::SetExposure {
                                    handle,
                                    value: Exposure::Auto {
                                        key_value,
                                        min_luminance,
                                        max_luminance: v,
                                    },
                                },
                            ),
                            None => None,
                        }
                    },
                    Exposure::Manual(m) => Some(
                        Command::SetExposure { handle, value: Exposure::Manual(m) },
                    ),
                }
            } else if inner.name@ == "Manual"@ {
                match value.cast_scalar_spec() {
                    Some(v) => Some(
                        Command::SetExposure { handle, value: Exposure::Manual(v) },
                    ),
                    None => None,
                }
            } else {
                None
            }
        },
        _ => None,
    }
}

/// The color-grading sub-object's field table: a new table texture must
/// finish loading before the command is formed; clearing to no texture, a
/// failed load, or a wrong payload tag all reject the edit.
pub open spec fn color_grading_inner_command(inner: PropertyChanged, handle: Handle) -> Option<Command> {
    match inner.value {
        FieldKind::Object(value) => {
            if inner.name@ == "Lut"@ {
                match value.cast_opt_texture_spec() {
                    Some(Some(texture)) => {
                        match ColorGradingLut::new_spec(texture) {
                            Some(lut) => Some(
                                Command::SetColorGradingLut { handle, value: Some(lut) },
                            ),
                            None => None,
                        }
                    },
                    Some(None) => None,
                    None => None,
                }
            } else {
                None
            }
        },
        _ => None,
    }
}

/// Which cube-map slot a face name addresses.
pub open spec fn sky_box_face_for_name(name: Seq<char>) -> Option<SkyBoxFace> {
    if name == "Front"@ {
        Some(SkyBoxFace::Front)
    } else if name == "Back"@ {
        Some(SkyBoxFace::Back)
    } else if name == "Left"@ {
        Some(SkyBoxFace::Left)
    } else if name == "Right"@ {
        Some(SkyBoxFace::Right)
    } else if name == "Bottom"@ {
        Some(SkyBoxFace::Bottom)
    } else if name == "Top"@ {
        Some(SkyBoxFace::Top)
    } else {
        None
    }
}

/// The cube-map sub-object's field table: rebuild the camera's cube map with
/// the addressed face replaced, per `modify_skybox_spec`.
pub open spec fn sky_box_inner_command(inner: PropertyChanged, handle: Handle, camera: Camera) -> Option<Command> {
    match inner.value {
        FieldKind::Object(value) => {
            match value.cast_opt_texture_spec() {
                Some(texture) => {
                    match sky_box_face_for_name(inner.name@) {
                        Some(face) => {
                            match modify_skybox_spec(camera, texture, face) {
                                Some(sky_box) => Some(
                                    Command::SetSkyBox { handle, value: Some(sky_box) },
                                ),
                                None => None,
                            }
                        },
                        None => None,
                    }
                },
                None => None,
            }
        },
        _ => None,
    }
}

/// The whole camera dispatch table: variant check first, then the payload
/// shape, then the field name; composite sub-objects recurse one level, and
/// the shared base fields delegate to `base_property_command`.
pub open spec fn camera_property_command(args: PropertyChanged, handle: Handle, node: Node) -> Option<Command> {
    match node {
        Node::Camera(camera) => match args.value {
            FieldKind::Object(value) => camera_object_command(args.name@, value, handle),
            FieldKind::Inspectable(inner) => {
                if args.name@ == "Exposure"@ {
                    exposure_inner_command(*inner, handle, camera)
                } else if args.name@ == "ColorGradingLut"@ {
                    color_grading_inner_command(*inner, handle)
                } else if args.name@ == "SkyBox"@ {
                    sky_box_inner_command(*inner, handle, camera)
                } else if args.name@ == "Base"@ {
                    base_property_command(*inner, handle)
                } else {
                    None
                }
            },
        },
        _ => None,
    }
}

/// The sprite dispatch table: its one own field, plus the shared base
/// fields delegated to `base_property_command`.
pub open spec fn sprite_property_command(args: PropertyChanged, handle: Handle, node: Node) -> Option<Command> {
    match node {
        Node::Sprite(_) => match args.value {
            FieldKind::Object(value) => {
                if args.name@ == "Size"@ {
                    match value.cast_scalar_spec() {
                        Some(v) => Some(Command::SetSpriteSize { handle, value: v }),
                        None => None,
                    }
                } else {
                    None
                }
            },
            FieldKind::Inspectable(inner) => {
                if args.name@ == "Base"@ {
                    base_property_command(*inner, handle)
                } else {
                    None
                }
            },
        },
        _ => None,
    }
}

/// The command stream after one dispatch whose outcome was `produced`.
pub open spec fn sink_after(sent: Seq<Command>, produced: Option<Command>) -> Seq<Command> {
    match produced {
        Some(c) => sent.push(c),
        None => sent,
    }
}

/// Dispatch a descriptor over the shared base properties: the same handler
/// serves every variant that embeds them.
pub fn handle_base_property_changed(
    args: &PropertyChanged,
    handle: Handle,
    helper: &mut SenderHelper,
) -> (r: Option<()>)
    ensures
        final(helper).commands@ == sink_after(
            old(helper).commands@,
            base_property_command(*args, handle),
        ),
        r is Some <==> base_property_command(*args, handle) is Some,
{
    match &args.value {
        FieldKind::Object(value) => {
            if name_is(&args.name, "Visibility") {
                match value.cast_bool() {
                    Some(v) => helper.do_scene_command(Command::SetVisibility { handle, value: v }),
                    None => None,
                }
            } else if name_is(&args.name, "DepthOffset") {
                match value.cast_scalar() {
                    Some(v) => helper.do_scene_command(
                        Command::SetDepthOffset { handle, value: v },
                    ),
                    None => None,
                }
            } else {
                None
            }
        },
        _ => None,
    }
}

/// Dispatch a descriptor against a camera node: reject other variants, match
/// the field-name tables, validate casts and resource loads, and hand at
/// most one command to the sink. `Some(())` reports that a command was sent.
pub fn handle_camera_property_changed(
    args: &PropertyChanged,
    handle: Handle,
    node: &Node,
    helper: &mut SenderHelper,
) -> (r: Option<()>)
    ensures
        final(helper).commands@ == sink_after(
            old(helper).commands@,
            camera_property_command(*args, handle, *node),
        ),
        r is Some <==> camera_property_command(*args, handle, *node) is Some,
{
    match node {
        Node::Camera(camera) => {
            match &args.value {
                FieldKind::Object(value) => {
                    if name_is(&args.name, "Exposure") {
                        match value.cast_exposure() {
                            Some(v) => helper.do_scene_command(
                                Command::SetExposure { handle, value: v },
                            ),
                            None => None,
                        }
                    } else if name_is(&args.name, "ZNear") {
                        match value.cast_scalar() {
                            Some(v) => helper.do_scene_command(
                                Command::SetZNear { handle, value: v },
                            ),
                            None => None,
                        }
                    } else if name_is(&args.name, "ZFar") {
                        match value.cast_scalar() {
                            Some(v) => helper.do_scene_command(
                                Command::SetZFar { handle, value: v },
                            ),
                            None => None,
                        }
                    } else if name_is(&args.name, "Fov") {
                        match value.cast_scalar() {
                            Some(v) => helper.do_scene_command(
                                Command::SetFov { handle, value: v },
                            ),
                            None => None,
                        }
                    } else if name_is(&args.name, "Viewport") {
                        match value.cast_rect() {
                            Some(v) => helper.do_scene_command(
                                Command::SetViewport { handle, value: v },
                            ),
                            None => None,
                        }
                    } else if name_is(&args.name, "Enabled") {
                        match value.cast_bool() {
                            Some(v) => helper.do_scene_command(
                                Command::SetCameraPreview { handle, value: v },
                            ),
                            None => None,
                        }
                    } else if name_is(&args.name, "SkyBox") {
                        match value.cast_opt_sky_box() {
                            Some(v) => helper.do_scene_command(
                                Command::SetSkyBox { handle, value: v },
                            ),
                            None => None,
                        }
                    } else if name_is(&args.name, "Environment") {
                        match value.cast_opt_texture() {
                            Some(v) => helper.do_scene_command(
                                Command::SetEnvironmentMap { handle, value: v },
                            ),
                            None => None,
                        }
                    } else if name_is(&args.name, "ColorGradingLut") {
                        match value.cast_opt_color_grading_lut() {
                            Some(v) => helper.do_scene_command(
                                Command::SetColorGradingLut { handle, value: v },
                            ),
                            None => None,
                        }
                    } else if name_is(&args.name, "ColorGradingEnabled") {
                        match value.cast_bool() {
                            Some(v) => helper.do_scene_command(
                                Command::SetColorGradingEnabled { handle, value: v },
                            ),
                            None => None,
                        }
                    } else {
                        None
                    }
                },
                FieldKind::Inspectable(inner) => {
                    let inner: &PropertyChanged = inner;
                    if name_is(&args.name, "Exposure") {
                        match &inner.value {
                            FieldKind::Object(value) => {
                                if name_is(&inner.name, "KeyValue") {
                                    match camera.exposure {
                                        Exposure::Auto {
                                            key_value: _,
                                            min_luminance,
                                            max_luminance,
                                        } => {
                                            match value.cast_scalar() {
                                                Some(v) => helper.do_scene_command(
                                                    Command::SetExposure {
                                                        handle,
                                                        value: Exposure::Auto {
                                                            key_value: v,
                                                            min_luminance,
                                                            max_luminance,
                                                        },
                                                    },
                                                ),
                                                None => None,
                                            }
                                        },
                                        Exposure::Manual(m) => helper.do_scene_command(
                                            Command::SetExposure {
                                                handle,
                                                value: Exposure::Manual(m),
                                            },
                                        ),
                                    }
                                } else if name_is(&inner.name, "MinLuminance") {
                                    match camera.exposure {
                                        Exposure::Auto {
                                            key_value,
                                            min_luminance: _,
                                            max_luminance,
                                        } => {
                                            match value.cast_scalar() {
                                                Some(v) => helper.do_scene_command(
                                                    Command::SetExposure {
                                                        handle,
                                                        value: Exposure::Auto {
                                                            key_value,
                                                            min_luminance: v,
                                                            max_luminance,
                                                        },
                                                    },
                                                ),
                                                None => None,
                                            }
                                        },
                                        Exposure::Manual(m) => helper.do_scene_command(
                                            Command::SetExposure {
                                                handle,
                                                value: Exposure::Manual(m),
                                            },
                                        ),
                                    }
                                } else if name_is(&inner.name, "MaxLuminance") {
                                    match camera.exposure {
                                        Exposure::Auto {
                                            key_value,
                                            min_luminance,
                                            max_luminance: _,
                                        } => {
                                            match value.cast_scalar() {
                                                Some(v) => helper.do_scene_command(
                                                    Command::SetExposure {
                                                        handle,
                                                        value: Exposure::Auto {
                                                            key_value,
                                                            min_luminance,
                                                            max_luminance: v,
                                                        },
                                                    },
                                                ),
                                                None => None,
                                            }
                                        },
                                        Exposure::Manual(m) => helper.do_scene_command(
                                            Command::SetExposure {
                                                handle,
                                                value: Exposure::Manual(m),
                                            },
                                        ),
                                    }
                                } else if name_is(&inner.name, "Manual") {
                                    match value.cast_scalar() {
                                        Some(v) => helper.do_scene_command(
                                            Command::SetExposure {
                                                handle,
                                                value: Exposure::Manual(v),
                                            },
                                        ),
                                        None => None,
                                    }
                                } else {
                                    None
                                }
                            },
                            _ => None,
                        }
                    } else if name_is(&args.name, "ColorGradingLut") {
                        match &inner.value {
                            FieldKind::Object(value) => {
                                if name_is(&inner.name, "Lut") {
                                    match value.cast_opt_texture() {
                                        Some(Some(texture)) => {
                                            match ColorGradingLut::new(texture) {
                                                Some(lut) => helper.do_scene_command(
                                                    Command::SetColorGradingLut {
                                                        handle,
                                                        value: Some(lut),
                                                    },
                                                ),
                                                None => None,
                                            }
                                        },
                                        Some(None) => None,
                                        None => None,
                                    }
                                } else {
                                    None
                                }
                            },
                            _ => None,
                        }
                    } else if name_is(&args.name, "SkyBox") {
                        match &inner.value {
                            FieldKind::Object(value) => {
                                match value.cast_opt_texture() {
                                    Some(texture) => {
                                        let face: Option<SkyBoxFace> = if name_is(
                                            &inner.name,
                                            "Front",
                                        ) {
                                            Some(SkyBoxFace::Front)
                                        } else if name_is(&inner.name, "Back") {
                                            Some(SkyBoxFace::Back)
                                        } else if name_is(&inner.name, "Left") {
                                            Some(SkyBoxFace::Left)
                                        } else if name_is(&inner.name, "Right") {
                                            Some(SkyBoxFace::Right)
                                        } else if name_is(&inner.name, "Bottom") {
                                            Some(SkyBoxFace::Bottom)
                                        } else if name_is(&inner.name, "Top") {
                                            Some(SkyBoxFace::Top)
                                        } else {
                                            None
                                        };
                                        match face {
                                            Some(face) => {
                                                match modify_skybox(camera, texture, face) {
                                                    Some(sky_box) => helper.do_scene_command(
                                                        Command::SetSkyBox {
                                                            handle,
                                                            value: Some(sky_box),
                                                        },
                                                    ),
                                                    None => None,
                                                }
                                            },
                                            None => None,
                                        }
                                    },
                                    None => None,
                                }
                            },
                            _ => None,
                        }
                    } else if name_is(&args.name, "Base") {
                        handle_base_property_changed(inner, handle, helper)
                    } else {
                        None
                    }
                },
            }
        },
        _ => None,
    }
}

/// Dispatch a descriptor against a sprite node: the sprite's own field
/// table, with base fields delegated to the same shared handler the camera
/// uses.
pub fn handle_sprite_property_changed(
    args: &PropertyChanged,
    handle: Handle,
    node: &Node,
    helper: &mut SenderHelper,
) -> (r: Option<()>)
    ensures
        final(helper).commands@ == sink_after(
            old(helper).commands@,
            sprite_property_command(*args, handle, *node),
        ),
        r is Some <==> sprite_property_command(*args, handle, *node) is Some,
{
    match node {
        Node::Sprite(_) => {
            match &args.value {
                FieldKind::Object(value) => {
                    if name_is(&args.name, "Size") {
                        match value.cast_scalar() {
                            Some(v) => helper.do_scene_command(
                                Command::SetSpriteSize { handle, value: v },
                            ),
                            None => None,
                        }
                    } else {
                        None
                    }
                },
                FieldKind::Inspectable(inner) => {
                    let inner: &PropertyChanged = inner;
                    if name_is(&args.name, "Base") {
                        handle_base_property_changed(inner, handle, helper)
                    } else {
                        None
                    }
                },
            }
        },
        _ => None,
    }
}

/// Idempotent rejection: a descriptor the camera table rejects leaves the
/// command stream untouched however many times it is fed in — here shown
/// for two consecutive dispatches, each of which appends nothing.
pub proof fn lemma_idempotent_rejection(
    args: PropertyChanged,
    handle: Handle,
    node: Node,
    sent: Seq<Command>,
)
    requires
        camera_property_command(args, handle, node) is None,
    ensures
        sink_after(
            sink_after(sent, camera_property_command(args, handle, node)),
            camera_property_command(args, handle, node),
        ) == sent,
{
}

/// Composite reconstruction: replacing one face of a six-face cube map
/// yields a cube map where exactly that slot holds the new texture and the
/// other five are copied from the current one; a texture whose load failed
/// rejects the rebuild outright (and the bridge then leaves the stored cube
/// map untouched, since no command is formed).
pub proof fn lemma_composite_reconstruction(
    camera: Camera,
    sky_box: SkyBox,
    texture: Texture,
    face: SkyBoxFace,
)
    requires
        camera.sky_box == Some(sky_box),
    ensures
        texture.is_loaded_spec() ==> modify_skybox_spec(camera, Some(texture), face) == Some(
            replaced_sky_box(sky_box, Some(texture), face),
        ),
        texture.is_loaded_spec() && face is Front ==> modify_skybox_spec(
            camera,
            Some(texture),
            face,
        ) == Some(SkyBox { front: Some(texture), ..sky_box }),
        texture.is_loaded_spec() && face is Back ==> modify_skybox_spec(
            camera,
            Some(texture),
            face,
        ) == Some(SkyBox { back: Some(texture), ..sky_box }),
        texture.is_loaded_spec() && face is Left ==> modify_skybox_spec(
            camera,
            Some(texture),
            face,
        ) == Some(SkyBox { left: Some(texture), ..sky_box }),
        texture.is_loaded_spec() && face is Right ==> modify_skybox_spec(
            camera,
            Some(texture),
            face,
        ) == Some(SkyBox { right: Some(texture), ..sky_box }),
        texture.is_loaded_spec() && face is Top ==> modify_skybox_spec(
            camera,
            Some(texture),
            face,
        ) == Some(SkyBox { top: Some(texture), ..sky_box }),
        texture.is_loaded_spec() && face is Bottom ==> modify_skybox_spec(
            camera,
            Some(texture),
            face,
        ) == Some(SkyBox { bottom: Some(texture), ..sky_box }),
        !texture.is_loaded_spec() ==> modify_skybox_spec(camera, Some(texture), face) is None,
{
}

/// Nested delegation: a descriptor addressing a base field embedded in a
/// camera and the same descriptor embedded in a sprite route through the one
/// shared base handler, and the two commands they yield differ only in the
/// handle they target.
pub proof fn lemma_nested_delegation(
    args: PropertyChanged,
    inner: PropertyChanged,
    camera_handle: Handle,
    sprite_handle: Handle,
    camera_node: Node,
    sprite_node: Node,
)
    requires
        args.name@ == "Base"@,
        args.value matches FieldKind::Inspectable(boxed) && *boxed == inner,
        camera_node is Camera,
        sprite_node is Sprite,
    ensures
        camera_property_command(args, camera_handle, camera_node) == base_property_command(
            inner,
            camera_handle,
        ),
        sprite_property_command(args, sprite_handle, sprite_node) == base_property_command(
            inner,
            sprite_handle,
        ),
        base_property_command(inner, camera_handle) matches Some(c)
            ==> base_property_command(inner, sprite_handle) == Some(
            command_with_handle(c, sprite_handle),
        ),
        base_property_command(inner, camera_handle) is None <==> base_property_command(
            inner,
            sprite_handle,
        ) is None,
        base_property_command(inner, camera_handle) matches Some(c) ==> command_handle(c)
            == camera_handle,
{
    reveal_strlit("Base");
    reveal_strlit("Exposure");
    reveal_strlit("ColorGradingLut");
    reveal_strlit("SkyBox");
    // The branches ahead of the base arm fall away because their names have
    // other lengths than "Base".
    assert("Base"@.len() == 4);
    assert("Exposure"@.len() == 8);
    assert("ColorGradingLut"@.len() == 15);
    assert("SkyBox"@.len() == 6);
}

} // verus!

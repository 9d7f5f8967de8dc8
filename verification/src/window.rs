//! Windows as physical glass panes.
//!
//! A [`Window`] owns two independent spring animations — one for its
//! position, one for its scalar elevation (stored in the first component of
//! a vector so the same machinery serves both) — together with static
//! material constants used for derived rendering quantities such as the
//! background blur radius.

use vstd::prelude::*;

use crate::animator::{spec_new_anim, spec_set_target, spec_step, AnimationState, Spring};
use crate::fixed::{div_t, div_trunc, lemma_div_t_shrinks, Vec3, LIMIT};

verus! {

/// Elevation a window rests at when it is not the active one: 1.0.
pub const REST_ELEVATION: i64 = 1_000_000;

/// Elevation of the active (focused) window: 5.0.
pub const ACTIVE_ELEVATION: i64 = 5_000_000;

/// Physical material properties of a UI window: how it interacts with light.
#[derive(Debug, Clone, Copy, PartialEq)]
pub struct MaterialProperties {
    /// Refractive index `n`; 1.52 for crown glass. Modulates how much
    /// background distortion occurs.
    pub refraction_index: i64,
    /// Physical density (affects impact force on docking).
    pub density: i64,
    /// Surface roughness for micro-grain noise, between 0 and 1.
    pub roughness: i64,
}

/// The semantic role of a window; fixes its initial dimensions and initial
/// elevation, and nothing after construction.
#[derive(Debug, Clone, Copy, PartialEq, Eq, Structural)]
pub enum WindowType {
    /// Normal application window.
    Standard,
    /// Fullscreen, high-focus out-of-box-experience surface.
    Installer,
    /// The background "floor".
    DesktopSurface,
    /// The floating cognitive interface.
    ContextOrb,
    /// Control centers and dialogs.
    Modal,
}

/// An orientation quaternion on the fixed-point grid; not physics-driven in
/// the current scope, so it keeps its construction value.
#[derive(Debug, Clone, Copy, PartialEq, Eq, Structural)]
pub struct Quat {
    pub w: i64,
    pub x: i64,
    pub y: i64,
    pub z: i64,
}

/// The fundamental UI unit: not just a rectangle, but a physical object in
/// three-dimensional space.
#[derive(Debug, Clone, PartialEq)]
pub struct Window {
    /// Process-lifetime identity, unique among live windows, never reused.
    pub id: u64,
    pub title: String,
    pub window_type: WindowType,
    /// Spring-driven screen position.
    pub position_anim: AnimationState,
    /// Spring-driven elevation; the scalar lives in the vector's first
    /// component.
    pub elevation_anim: AnimationState,
    pub rotation: Quat,
    pub mass_kg: i64,
    /// Width, height and thickness.
    pub dimensions: Vec3,
    pub material: MaterialProperties,
    pub is_docked: bool,
    /// Timestamp of the last user interaction, in microseconds.
    pub last_interaction: u64,
}

/// Initial width, height and thickness for each window type.
pub open spec fn spec_dimensions_of(w_type: WindowType) -> Vec3 {
    match w_type {
        WindowType::Installer => Vec3 { x: 1_920_000_000, y: 1_080_000_000, z: 100_000 },
        WindowType::DesktopSurface => Vec3 { x: 1_920_000_000, y: 1_080_000_000, z: 0 },
        WindowType::ContextOrb => Vec3 { x: 100_000_000, y: 100_000_000, z: 100_000 },
        _ => Vec3 { x: 800_000_000, y: 600_000_000, z: 50_000 },
    }
}

/// Initial position for each window type: the origin, except for the context
/// orb, which starts at the bottom center.
pub open spec fn spec_initial_position_of(w_type: WindowType) -> Vec3 {
    match w_type {
        WindowType::ContextOrb => Vec3 { x: 0, y: -400_000_000i64, z: 0 },
        _ => Vec3 { x: 0, y: 0, z: 0 },
    }
}

/// Initial elevation for each window type, as the degenerate vector that the
/// elevation animation carries.
pub open spec fn spec_initial_elevation_of(w_type: WindowType) -> Vec3 {
    match w_type {
        WindowType::Installer => Vec3 { x: 8_000_000, y: 0, z: 0 },
        WindowType::DesktopSurface => Vec3 { x: 0, y: 0, z: 0 },
        WindowType::ContextOrb => Vec3 { x: 2_000_000, y: 0, z: 0 },
        _ => Vec3 { x: 1_000_000, y: 0, z: 0 },
    }
}

/// The window `Window::new` constructs: both animations settled at their
/// type-derived initial values, fixed material constants, identity rotation.
pub open spec fn spec_new_window(id: u64, title: String, w_type: WindowType, now: u64) -> Window {
    Window {
        id,
        title,
        window_type: w_type,
        position_anim: spec_new_anim(spec_initial_position_of(w_type), now),
        elevation_anim: spec_new_anim(spec_initial_elevation_of(w_type), now),
        rotation: Quat { w: 1_000_000, x: 0, y: 0, z: 0 },
        mass_kg: 500_000,
        dimensions: spec_dimensions_of(w_type),
        material: MaterialProperties {
            refraction_index: 1_520_000,
            density: 1_000_000,
            roughness: 100_000,
        },
        is_docked: false,
        last_interaction: now,
    }
}

/// The window after `set_elevation`: only the elevation animation's target
/// changes, to the degenerate vector holding `target_z`.
pub open spec fn spec_set_elevation(w: Window, target_z: i64) -> Window {
    Window {
        elevation_anim: spec_set_target(w.elevation_anim, Vec3 { x: target_z, y: 0, z: 0 }),
        ..w
    }
}

/// The window after `move_to`: only the position animation's target changes.
pub open spec fn spec_move_to(w: Window, target: Vec3) -> Window {
    Window { position_anim: spec_set_target(w.position_anim, target), ..w }
}

/// The window after one physics update at `now`: both animations stepped.
pub open spec fn spec_update_window(w: Window, now: u64) -> Window {
    Window {
        position_anim: spec_step(w.position_anim, now),
        elevation_anim: spec_step(w.elevation_anim, now),
        ..w
    }
}

/// Blur radius derived from an elevation and a glass thickness:
/// `elevation * 2.5 + thickness * 10` on the fixed-point grid, the scalar
/// multiple 2.5 evaluated as a truncating multiply-by-five-halve.
pub open spec fn spec_blur_radius(elevation: int, thickness: int) -> int {
    div_t(elevation * 5, 2) + thickness * 10
}

impl Window {
    /// Both animations are well-formed and the dimensions are representable.
    pub open spec fn wf(self) -> bool {
        &&& self.position_anim.wf()
        &&& self.elevation_anim.wf()
        &&& self.dimensions.in_range()
    }

    /// Construct a window of the given type: dimensions, initial position
    /// and initial elevation come from the type table, both animations start
    /// settled at those values, and the material constants are fixed.
    pub fn new(id: u64, title: String, w_type: WindowType, now: u64) -> (r: Window)
        ensures
            r == spec_new_window(id, title, w_type, now),
            r.wf(),
    {
        let start_pos = match w_type {
            WindowType::ContextOrb => Vec3::new(0, -400_000_000, 0),
            _ => Vec3::new(0, 0, 0),
        };
        let start_elev = match w_type {
            WindowType::Installer => Vec3::new(8_000_000, 0, 0),
            WindowType::DesktopSurface => Vec3::new(0, 0, 0),
            WindowType::ContextOrb => Vec3::new(2_000_000, 0, 0),
            _ => Vec3::new(1_000_000, 0, 0),
        };
        let dimensions = match w_type {
            WindowType::Installer => Vec3::new(1_920_000_000, 1_080_000_000, 100_000),
            WindowType::DesktopSurface => Vec3::new(1_920_000_000, 1_080_000_000, 0),
            WindowType::ContextOrb => Vec3::new(100_000_000, 100_000_000, 100_000),
            _ => Vec3::new(800_000_000, 600_000_000, 50_000),
        };
        Window {
            id,
            title,
            window_type: w_type,
            position_anim: AnimationState::new(start_pos, now),
            elevation_anim: AnimationState::new(start_elev, now),
            rotation: Quat { w: 1_000_000, x: 0, y: 0, z: 0 },
            mass_kg: 500_000,
            dimensions,
            material: MaterialProperties {
                refraction_index: 1_520_000,
                density: 1_000_000,
                roughness: 100_000,
            },
            is_docked: false,
            last_interaction: now,
        }
    }

    /// Retarget the elevation animation to the scalar `target_z`, carried in
    /// the first component of its vector.
    pub fn set_elevation(&mut self, target_z: i64)
        requires
            old(self).wf(),
            -LIMIT <= target_z <= LIMIT,
        ensures
            *final(self) == spec_set_elevation(*old(self), target_z),
            final(self).wf(),
    {
        self.elevation_anim.set_target(Vec3::new(target_z, 0, 0));
    }

    /// Retarget the position animation.
    pub fn move_to(&mut self, target: Vec3)
        requires
            old(self).wf(),
            target.in_range(),
        ensures
            *final(self) == spec_move_to(*old(self), target),
            final(self).wf(),
    {
        self.position_anim.set_target(target);
    }

    /// Step both animations once, to the timestamp `now`.
    pub fn update_physics(&mut self, now: u64)
        requires
            old(self).wf(),
        ensures
            *final(self) == spec_update_window(*old(self), now),
            final(self).wf(),
    {
        self.position_anim.step(now);
        self.elevation_anim.step(now);
    }

    /// Blur radius the background needs behind this window: higher elevation
    /// means further from the background and more blur; thicker glass means
    /// more internal scattering.
    pub fn calculate_blur_radius(&self) -> (r: i64)
        requires
            self.wf(),
        ensures
            r as int == spec_blur_radius(
                self.elevation_anim.current.x as int,
                self.dimensions.z as int,
            ),
    {
        let elev: i128 = self.elevation_anim.current.x as i128;
        proof {
            lemma_div_t_shrinks(elev as int * 5, 2, 5 * LIMIT as int);
        }
        let base_blur: i128 = div_trunc(elev * 5, 2);
        let thickness_factor: i128 = (self.dimensions.z as i128) * 10;
        (base_blur + thickness_factor) as i64
    }
}

} // verus!

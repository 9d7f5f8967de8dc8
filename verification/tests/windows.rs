use liquid_glass::fixed::Vec3;
use liquid_glass::window::{Window, WindowType, ACTIVE_ELEVATION, REST_ELEVATION};
use liquid_glass::window_manager::WindowManager;

fn find(wm: &WindowManager, id: u64) -> &Window {
    wm.windows.iter().find(|w| w.id == id).expect("window not found")
}

#[test]
fn window_type_table() {
    let w = Window::new(1, String::from("std"), WindowType::Standard, 0);
    assert_eq!(w.dimensions, Vec3::new(800_000_000, 600_000_000, 50_000));
    assert_eq!(w.position_anim.current, Vec3::new(0, 0, 0));
    assert_eq!(w.elevation_anim.current, Vec3::new(1_000_000, 0, 0));
    assert!(w.position_anim.is_settled && w.elevation_anim.is_settled);

    let w = Window::new(2, String::from("inst"), WindowType::Installer, 0);
    assert_eq!(w.dimensions, Vec3::new(1_920_000_000, 1_080_000_000, 100_000));
    assert_eq!(w.elevation_anim.current, Vec3::new(8_000_000, 0, 0));

    let w = Window::new(3, String::from("desk"), WindowType::DesktopSurface, 0);
    assert_eq!(w.dimensions, Vec3::new(1_920_000_000, 1_080_000_000, 0));
    assert_eq!(w.elevation_anim.current, Vec3::new(0, 0, 0));

    let w = Window::new(4, String::from("orb"), WindowType::ContextOrb, 0);
    assert_eq!(w.dimensions, Vec3::new(100_000_000, 100_000_000, 100_000));
    assert_eq!(w.position_anim.current, Vec3::new(0, -400_000_000, 0));
    assert_eq!(w.elevation_anim.current, Vec3::new(2_000_000, 0, 0));

    let w = Window::new(5, String::from("modal"), WindowType::Modal, 0);
    assert_eq!(w.dimensions, Vec3::new(800_000_000, 600_000_000, 50_000));
    assert_eq!(w.elevation_anim.current, Vec3::new(1_000_000, 0, 0));
}

#[test]
fn window_material_constants() {
    let w = Window::new(9, String::from("pane"), WindowType::Standard, 7);
    assert_eq!(w.material.refraction_index, 1_520_000);
    assert_eq!(w.material.density, 1_000_000);
    assert_eq!(w.material.roughness, 100_000);
    assert_eq!(w.mass_kg, 500_000);
    assert_eq!(w.rotation.w, 1_000_000);
    assert_eq!((w.rotation.x, w.rotation.y, w.rotation.z), (0, 0, 0));
    assert!(!w.is_docked);
    assert_eq!(w.last_interaction, 7);
    assert_eq!(w.title, "pane");
}

#[test]
fn blur_radius_formula() {
    // elevation 1.0 and thickness 0.05: 1.0 * 2.5 + 0.05 * 10 = 3.0
    let w = Window::new(1, String::from("std"), WindowType::Standard, 0);
    assert_eq!(w.calculate_blur_radius(), 3_000_000);
    // elevation 8.0 and thickness 0.1: 8.0 * 2.5 + 0.1 * 10 = 21.0
    let w = Window::new(2, String::from("inst"), WindowType::Installer, 0);
    assert_eq!(w.calculate_blur_radius(), 21_000_000);
}

#[test]
fn manager_starts_empty() {
    let wm = WindowManager::new();
    assert_eq!(wm.windows.len(), 0);
    assert_eq!(wm.next_id, 1);
    assert_eq!(wm.active_window_id, None);
}

#[test]
fn spawn_standard_targets_active_elevation() {
    // Focus-on-spawn: the initial elevation target resolves to the active
    // height of 5.0, not the Standard resting height of 1.0.
    let mut wm = WindowManager::new();
    let id = wm.spawn_window(String::from("Terminal"), WindowType::Standard, 0);
    assert_eq!(id, 1);
    assert_eq!(wm.active_window_id, Some(id));
    let w = find(&wm, id);
    assert_eq!(w.elevation_anim.target, Vec3::new(ACTIVE_ELEVATION, 0, 0));
    assert!(!w.elevation_anim.is_settled);
    assert_eq!(w.elevation_anim.current, Vec3::new(1_000_000, 0, 0));
    assert_eq!(w.position_anim.current, Vec3::new(0, 0, 0));
}

#[test]
fn spawn_installer_dimensions() {
    let mut wm = WindowManager::new();
    let id = wm.spawn_window(String::from("Setup"), WindowType::Installer, 0);
    let w = find(&wm, id);
    assert_eq!(w.dimensions, Vec3::new(1_920_000_000, 1_080_000_000, 100_000));
}

#[test]
fn focused_installer_settles_to_blur_of_13_5() {
    // Spawned focused: elevation animates 8.0 -> 5.0 and settles exactly;
    // blur is then 5.0 * 2.5 + 0.1 * 10 = 13.5.
    let mut wm = WindowManager::new();
    let id = wm.spawn_window(String::from("Setup"), WindowType::Installer, 0);
    let mut now: u64 = 0;
    for _ in 0..1000 {
        if find(&wm, id).elevation_anim.is_settled {
            break;
        }
        now += 16_000;
        wm.update(now);
    }
    let w = find(&wm, id);
    assert!(w.elevation_anim.is_settled);
    assert_eq!(w.elevation_anim.current, Vec3::new(5_000_000, 0, 0));
    assert_eq!(w.calculate_blur_radius(), 13_500_000);
}

#[test]
fn close_window_twice_is_idempotent() {
    let mut wm = WindowManager::new();
    let a = wm.spawn_window(String::from("a"), WindowType::Standard, 0);
    let b = wm.spawn_window(String::from("b"), WindowType::Standard, 0);

    wm.close_window(a);
    let ids_once: Vec<u64> = wm.windows.iter().map(|w| w.id).collect();
    let active_once = wm.active_window_id;
    let next_once = wm.next_id;

    wm.close_window(a);
    let ids_twice: Vec<u64> = wm.windows.iter().map(|w| w.id).collect();
    assert_eq!(ids_once, ids_twice);
    assert_eq!(active_once, wm.active_window_id);
    assert_eq!(next_once, wm.next_id);
    assert_eq!(ids_twice, vec![b]);
    assert_eq!(wm.active_window_id, Some(b));
}

#[test]
fn close_active_window_clears_focus() {
    let mut wm = WindowManager::new();
    let a = wm.spawn_window(String::from("a"), WindowType::Standard, 0);
    assert_eq!(wm.active_window_id, Some(a));
    wm.close_window(a);
    assert_eq!(wm.windows.len(), 0);
    assert_eq!(wm.active_window_id, None);
    assert_eq!(wm.next_id, 2);
}

#[test]
fn close_missing_id_is_noop() {
    let mut wm = WindowManager::new();
    let a = wm.spawn_window(String::from("a"), WindowType::Standard, 0);
    wm.close_window(999);
    assert_eq!(wm.windows.len(), 1);
    assert_eq!(wm.active_window_id, Some(a));
}

#[test]
fn focus_a_then_b_exchanges_elevations() {
    let mut wm = WindowManager::new();
    let a = wm.spawn_window(String::from("a"), WindowType::Standard, 0);
    let b = wm.spawn_window(String::from("b"), WindowType::Standard, 0);

    wm.focus_window(a);
    wm.focus_window(b);

    let wa = find(&wm, a);
    let wb = find(&wm, b);
    assert_eq!(wa.elevation_anim.target, Vec3::new(REST_ELEVATION, 0, 0));
    assert_eq!(wb.elevation_anim.target, Vec3::new(ACTIVE_ELEVATION, 0, 0));
    assert_eq!(wm.active_window_id, Some(b));

    // Exactly one of the two targets the active height.
    let active_vec = Vec3::new(ACTIVE_ELEVATION, 0, 0);
    let n_active = [wa, wb]
        .iter()
        .filter(|w| w.elevation_anim.target == active_vec)
        .count();
    assert_eq!(n_active, 1);
}

#[test]
fn refocus_active_window_is_noop() {
    // Only a *different* active window is demoted on focus, and retargeting
    // to the value already targeted changes nothing: re-focusing the active
    // window leaves the whole manager untouched, settled or not.
    let mut wm = WindowManager::new();
    let a = wm.spawn_window(String::from("a"), WindowType::Standard, 0);

    // Mid-flight: elevation still animating toward the active height.
    let windows_before = wm.windows.clone();
    wm.focus_window(a);
    assert_eq!(wm.windows, windows_before);
    assert_eq!(wm.active_window_id, Some(a));

    // Settled at the active height: still a complete no-op.
    let mut now: u64 = 0;
    for _ in 0..1000 {
        if find(&wm, a).elevation_anim.is_settled {
            break;
        }
        now += 16_000;
        wm.update(now);
    }
    assert!(find(&wm, a).elevation_anim.is_settled);
    let windows_settled = wm.windows.clone();
    wm.focus_window(a);
    assert_eq!(wm.windows, windows_settled);
    assert!(find(&wm, a).elevation_anim.is_settled);
    assert_eq!(wm.active_window_id, Some(a));
}

#[test]
fn focus_missing_id_demotes_previous_only() {
    // The documented gap: focusing a nonexistent id still lowers the
    // previously active window, but does not steal the active reference.
    let mut wm = WindowManager::new();
    let a = wm.spawn_window(String::from("a"), WindowType::Standard, 0);
    assert_eq!(find(&wm, a).elevation_anim.target, Vec3::new(ACTIVE_ELEVATION, 0, 0));
    wm.focus_window(999);
    assert_eq!(wm.active_window_id, Some(a));
    assert_eq!(find(&wm, a).elevation_anim.target, Vec3::new(REST_ELEVATION, 0, 0));
}

#[test]
fn move_window_retargets_position() {
    let mut wm = WindowManager::new();
    let a = wm.spawn_window(String::from("a"), WindowType::Standard, 0);
    let dest = Vec3::new(200_000_000, 100_000_000, 0);
    wm.move_window(a, dest);
    let w = find(&wm, a);
    assert_eq!(w.position_anim.target, dest);
    assert!(!w.position_anim.is_settled);

    // Moving a missing id silently does nothing.
    wm.move_window(999, Vec3::new(1, 2, 3));
    assert_eq!(find(&wm, a).position_anim.target, dest);
}

#[test]
fn update_steps_every_window() {
    let mut wm = WindowManager::new();
    let a = wm.spawn_window(String::from("a"), WindowType::Standard, 0);
    let b = wm.spawn_window(String::from("b"), WindowType::Standard, 0);
    // a was demoted back to its resting height, where it already stands, so
    // one step snaps it settled; b is rising toward the active height.
    wm.update(16_000);
    let wa = find(&wm, a);
    let wb = find(&wm, b);
    assert!(wa.elevation_anim.is_settled);
    assert_eq!(wa.elevation_anim.current, Vec3::new(REST_ELEVATION, 0, 0));
    assert!(wb.elevation_anim.current.x > 1_000_000);
    assert_eq!(wb.elevation_anim.target, Vec3::new(ACTIVE_ELEVATION, 0, 0));
}

#[test]
fn ids_are_monotonic_and_never_reused() {
    let mut wm = WindowManager::new();
    let a = wm.spawn_window(String::from("a"), WindowType::Standard, 0);
    let b = wm.spawn_window(String::from("b"), WindowType::Standard, 0);
    assert_eq!((a, b), (1, 2));
    wm.close_window(a);
    wm.close_window(b);
    let c = wm.spawn_window(String::from("c"), WindowType::Standard, 0);
    assert_eq!(c, 3);
}

#[test]
fn full_session_scenario() {
    // An installer session, then the desktop, then an application: the
    // manager keeps exactly the live windows and the last focus wins.
    let mut wm = WindowManager::new();
    let mut now: u64 = 0;
    let installer = wm.spawn_window(String::from("Prism Installer"), WindowType::Installer, now);
    for _ in 0..30 {
        now += 16_000;
        wm.update(now);
    }
    wm.close_window(installer);
    let desktop = wm.spawn_window(String::from("Ethereal Desktop"), WindowType::DesktopSurface, now);
    let orb = wm.spawn_window(String::from("Context Orb"), WindowType::ContextOrb, now);
    let app = wm.spawn_window(String::from("Terminal"), WindowType::Standard, now);
    wm.move_window(app, Vec3::new(200_000_000, 100_000_000, 0));
    let mut settled_all = false;
    for _ in 0..2000 {
        now += 16_000;
        wm.update(now);
        settled_all = wm.windows.iter().all(|w| {
            w.position_anim.is_settled && w.elevation_anim.is_settled
        });
        if settled_all {
            break;
        }
    }
    assert!(settled_all, "windows did not all settle");
    assert_eq!(wm.windows.len(), 3);
    assert_eq!(wm.active_window_id, Some(app));
    let wapp = find(&wm, app);
    assert_eq!(wapp.position_anim.current, Vec3::new(200_000_000, 100_000_000, 0));
    assert_eq!(wapp.elevation_anim.current, Vec3::new(ACTIVE_ELEVATION, 0, 0));
    let wdesk = find(&wm, desktop);
    assert_eq!(wdesk.elevation_anim.current, Vec3::new(REST_ELEVATION, 0, 0));
    assert!(find(&wm, orb).elevation_anim.is_settled);
}

use scrap::backend::Action;
use scrap::capture::BootResponses;
use scrap::capture::Capturer;
use scrap::capture::D3D11_CPU_ACCESS_READ;
use scrap::capture::D3D11_USAGE_STAGING;
use scrap::capture::FrameResponses;
use scrap::capture::Phase;
use scrap::capture::TextureDesc;
use scrap::capture::staging_desc;
use scrap::display::Display;
use scrap::display::OutputDescriptor;
use scrap::status::CaptureError;
use scrap::status::DXGI_ERROR_UNSUPPORTED;
use scrap::status::DXGI_ERROR_WAIT_TIMEOUT;
use scrap::status::E_ACCESSDENIED;

fn display() -> Display {
    Display {
        output: 11,
        adapter: 7,
        desc: OutputDescriptor {
            left: 0,
            top: 0,
            right: 1920,
            bottom: 1080,
            rotation: 1,
            name: [0u16; 32],
        },
    }
}

fn boot(in_system_memory: bool) -> BootResponses {
    BootResponses {
        create_status: 0,
        device: 1,
        context: 2,
        duplicate_status: 0,
        duplication: 3,
        in_system_memory,
    }
}

fn texture_desc() -> TextureDesc {
    TextureDesc {
        width: 1920,
        height: 1080,
        mip_levels: 1,
        array_size: 1,
        format: 87,
        sample_count: 1,
        sample_quality: 0,
        usage: 0,
        bind_flags: 8,
        cpu_access_flags: 0,
        misc_flags: 2,
    }
}

fn fast_responses(frame: u64, pitch: u32) -> FrameResponses {
    FrameResponses {
        acquire_status: 0,
        frame,
        map_status: 0,
        pitch,
        texture: 0,
        texture_desc: texture_desc(),
        create_status: 0,
        staging: None,
        surface: 0,
    }
}

fn slow_responses(frame: u64, texture: u64, staging: u64, surface: u64, pitch: u32) -> FrameResponses {
    FrameResponses {
        acquire_status: 0,
        frame,
        map_status: 0,
        pitch,
        texture,
        texture_desc: texture_desc(),
        create_status: 0,
        staging: Some(staging),
        surface,
    }
}

/// A fastlane capturer that went through its initial zero-timeout load.
fn primed_fastlane() -> Capturer {
    let (acts, r) = Capturer::new(&display(), &boot(true));
    assert!(acts.is_empty());
    let mut c = r.unwrap();
    assert_eq!(c.phase, Phase::Acquiring);
    c.on_acquire(0, 100).unwrap();
    let (acts, mapped) = c.on_desktop_map(0, 7680);
    assert_eq!(acts, vec![Action::ReleaseFrame { frame: 100 }]);
    mapped.unwrap();
    assert_eq!(c.phase, Phase::Idle);
    c
}

/// A slow-path capturer that went through its initial zero-timeout load,
/// mapping staging surface 203.
fn primed_slow() -> Capturer {
    let (_, r) = Capturer::new(&display(), &boot(false));
    let mut c = r.unwrap();
    c.on_acquire(0, 200).unwrap();
    let request = c.on_texture(201, &texture_desc());
    assert_eq!(request.usage, D3D11_USAGE_STAGING);
    let (acts, created) = c.on_staging_created(0, Some(202), 203);
    created.unwrap();
    assert_eq!(
        acts,
        vec![
            Action::SetEvictionPriority { staging: 202 },
            Action::CopyToStaging { staging: 202, texture: 201 },
            Action::ReleaseFrame { frame: 200 },
            Action::ReleaseTexture { texture: 201 },
            Action::ReleaseStaging { staging: 202 },
        ]
    );
    c.on_surface_map(0, 4096).unwrap();
    assert_eq!(c.surface, Some(203));
    assert_eq!(c.len, 1080 * 4096);
    c
}

#[test]
fn construction_failure_of_device_is_other() {
    let mut b = boot(true);
    b.create_status = -1;
    let (acts, r) = Capturer::new(&display(), &b);
    assert!(acts.is_empty());
    assert!(matches!(r, Err(CaptureError::Other)));
}

#[test]
fn construction_failure_of_duplication_rolls_back() {
    let mut b = boot(true);
    b.duplicate_status = DXGI_ERROR_UNSUPPORTED;
    let (acts, r) = Capturer::new(&display(), &b);
    assert!(matches!(r, Err(CaptureError::ConnectionRefused)));
    assert_eq!(
        acts,
        vec![Action::ReleaseDevice { device: 1 }, Action::ReleaseContext { context: 2 }]
    );
}

#[test]
fn construction_fixes_fastlane_and_height() {
    let (_, r) = Capturer::new(&display(), &boot(true));
    let c = r.unwrap();
    assert!(c.fastlane);
    assert_eq!(c.height, 1080);
    assert_eq!(c.len, 0);
    assert_eq!(c.surface, None);
}

#[test]
fn fastlane_frame_length_is_height_times_pitch() {
    let mut c = primed_fastlane();
    let (acts, r) = c.frame(100, &fast_responses(101, 7680));
    assert_eq!(r.unwrap(), 1080 * 7680);
    assert_eq!(
        acts,
        vec![
            Action::UnmapDesktop,
            Action::ReleaseSessionFrame,
            Action::ReleaseFrame { frame: 101 },
        ]
    );
    assert_eq!(c.surface, None);
}

#[test]
fn fastlane_two_calls_on_a_static_desktop() {
    // Two frame calls in a row: the second either returns a same-sized
    // buffer or the timeout error; a success is never a zero-length view.
    let mut c = primed_fastlane();
    let (_, first) = c.frame(100, &fast_responses(101, 7680));
    let first = first.unwrap();
    let (_, second) = c.frame(100, &fast_responses(102, 7680));
    let second = second.unwrap();
    assert_eq!(first, second);
    assert_ne!(second, 0);

    let mut timed = fast_responses(103, 7680);
    timed.acquire_status = DXGI_ERROR_WAIT_TIMEOUT;
    let (_, third) = c.frame(100, &timed);
    assert!(matches!(third, Err(CaptureError::TimedOut)));
}

#[test]
fn zero_timeout_without_a_new_frame_keeps_the_previous_length() {
    let mut c = primed_fastlane();
    let (_, r) = c.frame(100, &fast_responses(101, 7680));
    let len = r.unwrap();
    let mut timed = fast_responses(102, 7680);
    timed.acquire_status = DXGI_ERROR_WAIT_TIMEOUT;
    let (_, r) = c.frame(0, &timed);
    assert!(matches!(r, Err(CaptureError::TimedOut)));
    assert_eq!(c.len, len);
}

#[test]
fn slow_path_consecutive_frames_release_the_previous_surface() {
    // The second call's release phase must target exactly the staging
    // surface created by the first load — no leak, nothing else touched.
    let mut c = primed_slow();
    let (acts, r) = c.frame(100, &slow_responses(300, 301, 302, 303, 4096));
    assert_eq!(r.unwrap(), 1080 * 4096);
    assert_eq!(
        acts,
        vec![
            Action::UnmapSurface { surface: 203 },
            Action::ReleaseSurface { surface: 203 },
            Action::ReleaseSessionFrame,
            Action::SetEvictionPriority { staging: 302 },
            Action::CopyToStaging { staging: 302, texture: 301 },
            Action::ReleaseFrame { frame: 300 },
            Action::ReleaseTexture { texture: 301 },
            Action::ReleaseStaging { staging: 302 },
        ]
    );
    assert_eq!(c.surface, Some(303));
}

#[test]
fn slow_path_staging_creation_failure_releases_frame_and_texture() {
    // Creation failed outright: no staging resource exists, so none is
    // released.
    let mut c = primed_slow();
    let mut resp = slow_responses(300, 301, 302, 303, 4096);
    resp.create_status = E_ACCESSDENIED;
    resp.staging = None;
    let previous_len = c.len;
    let (acts, r) = c.frame(0, &resp);
    assert!(matches!(r, Err(CaptureError::PermissionDenied)));
    assert_eq!(c.len, previous_len);
    assert_eq!(c.surface, None);
    assert_eq!(
        acts,
        vec![
            Action::UnmapSurface { surface: 203 },
            Action::ReleaseSurface { surface: 203 },
            Action::ReleaseSessionFrame,
            Action::ReleaseFrame { frame: 300 },
            Action::ReleaseTexture { texture: 301 },
        ]
    );
}

#[test]
fn slow_path_partially_created_staging_is_released_too() {
    // Creation failed but left a partially created resource behind: that
    // resource is released along with the frame and the texture.
    let mut c = primed_slow();
    let mut resp = slow_responses(300, 301, 302, 303, 4096);
    resp.create_status = E_ACCESSDENIED;
    let (acts, r) = c.frame(0, &resp);
    assert!(matches!(r, Err(CaptureError::PermissionDenied)));
    assert_eq!(c.surface, None);
    assert_eq!(
        acts,
        vec![
            Action::UnmapSurface { surface: 203 },
            Action::ReleaseSurface { surface: 203 },
            Action::ReleaseSessionFrame,
            Action::ReleaseFrame { frame: 300 },
            Action::ReleaseTexture { texture: 301 },
            Action::ReleaseStaging { staging: 302 },
        ]
    );
}

#[test]
fn slow_path_map_failure_retains_the_new_surface() {
    let mut c = primed_slow();
    let mut resp = slow_responses(300, 301, 302, 303, 4096);
    resp.map_status = E_ACCESSDENIED;
    let (_, r) = c.frame(0, &resp);
    assert!(matches!(r, Err(CaptureError::PermissionDenied)));
    // The surface was created and is retained, so the next call or
    // destruction can unmap and release it.
    assert_eq!(c.surface, Some(303));
}

#[test]
fn destruction_unmaps_before_releasing() {
    let c = primed_slow();
    let acts = c.release_actions();
    assert_eq!(
        acts,
        vec![
            Action::UnmapSurface { surface: 203 },
            Action::ReleaseSurface { surface: 203 },
            Action::ReleaseDuplication { duplication: 3 },
            Action::ReleaseDevice { device: 1 },
            Action::ReleaseContext { context: 2 },
        ]
    );
}

#[test]
fn destruction_without_a_mapped_surface_releases_in_order() {
    let c = primed_fastlane();
    assert_eq!(
        c.release_actions(),
        vec![
            Action::ReleaseDuplication { duplication: 3 },
            Action::ReleaseDevice { device: 1 },
            Action::ReleaseContext { context: 2 },
        ]
    );
}

#[test]
fn staging_descriptor_is_the_cpu_readable_variant() {
    let d = texture_desc();
    let s = staging_desc(&d);
    assert_eq!(s.usage, D3D11_USAGE_STAGING);
    assert_eq!(s.bind_flags, 0);
    assert_eq!(s.cpu_access_flags, D3D11_CPU_ACCESS_READ);
    assert_eq!(s.misc_flags, 0);
    assert_eq!(s.width, d.width);
    assert_eq!(s.height, d.height);
    assert_eq!(s.format, d.format);
    assert_eq!(s.mip_levels, d.mip_levels);
    assert_eq!(s.array_size, d.array_size);
    assert_eq!(s.sample_count, d.sample_count);
    assert_eq!(s.sample_quality, d.sample_quality);
}

#[test]
fn priming_failure_leaves_the_capturer_usable() {
    // The initial zero-timeout load may fail; construction ignores that
    // and the first real frame call still works.
    let (_, r) = Capturer::new(&display(), &boot(true));
    let mut c = r.unwrap();
    let timed = c.on_acquire(DXGI_ERROR_WAIT_TIMEOUT, 0);
    assert!(matches!(timed, Err(CaptureError::TimedOut)));
    assert_eq!(c.phase, Phase::Idle);
    let (_, r) = c.frame(100, &fast_responses(101, 7680));
    assert_eq!(r.unwrap(), 1080 * 7680);
}

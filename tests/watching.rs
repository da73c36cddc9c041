use std::cell::Cell;

use gfx_shader_watch::builder::{SimplePsoCellBuilder, WatcherPsoCellBuilder};
use gfx_shader_watch::cache::{ArtifactCache, Refresh};
use gfx_shader_watch::cell::{PsoCell, SimplePsoCell};
use gfx_shader_watch::error::PsoCellError;
use gfx_shader_watch::event::{
    contains_path, event_is_relevant, relevant_change, ChangeEvent, ChangeKind,
};
use gfx_shader_watch::resource::{watch_dir, watch_dirs};

const VERTEX: &str = "/project/shader/vert.glsl";
const FRAGMENT: &str = "/project/shader/frag.glsl";

/// A stand-in for the pipeline compiler: joins the two sources, and rejects a source
/// that says "invalid".
fn compile(vertex: &str, fragment: &str) -> Result<String, String> {
    if vertex.contains("invalid") || fragment.contains("invalid") {
        Err(format!("cannot compile {:?} / {:?}", vertex, fragment))
    } else {
        Ok(format!("pso({},{})", vertex, fragment))
    }
}

/// The two shader files, as a rebuild would read them.
struct Disk {
    vertex: String,
    fragment: String,
}

fn resources() -> Vec<String> {
    vec![VERTEX.to_string(), FRAGMENT.to_string()]
}

fn modified(path: &str) -> ChangeEvent {
    ChangeEvent::new(path.to_string(), ChangeKind::Modified)
}

fn created(path: &str) -> ChangeEvent {
    ChangeEvent::new(path.to_string(), ChangeKind::Created)
}

fn other(path: &str) -> ChangeEvent {
    ChangeEvent::new(path.to_string(), ChangeKind::Other)
}

fn cache_over(disk: &Disk, builds: &Cell<u32>) -> ArtifactCache<String> {
    let made = ArtifactCache::create(resources(), || {
        builds.set(builds.get() + 1);
        compile(&disk.vertex, &disk.fragment)
    });
    match made {
        Ok(c) => c,
        Err(e) => panic!("initial build failed: {}", e),
    }
}

fn access(
    cache: &mut ArtifactCache<String>,
    disk: &Disk,
    events: &Vec<ChangeEvent>,
    builds: &Cell<u32>,
) -> Refresh<String> {
    cache.refresh(events, || {
        builds.set(builds.get() + 1);
        compile(&disk.vertex, &disk.fragment)
    })
}

#[test]
fn watch_for_modifications() {
    let builds = Cell::new(0);
    let mut disk = Disk { vertex: "A".to_string(), fragment: "B".to_string() };
    let mut cache = cache_over(&disk, &builds);
    assert_eq!(cache.artifact(), &compile("A", "B").unwrap());

    disk.fragment = "B2".to_string();
    let r = access(&mut cache, &disk, &vec![modified(FRAGMENT)], &builds);
    assert!(matches!(r, Refresh::Rebuilt(ref p) if p == FRAGMENT));
    assert_eq!(cache.artifact(), &compile("A", "B2").unwrap());

    disk.vertex = "A2".to_string();
    let r = access(&mut cache, &disk, &vec![modified(VERTEX)], &builds);
    assert!(matches!(r, Refresh::Rebuilt(ref p) if p == VERTEX));
    assert_eq!(cache.artifact(), &compile("A2", "B2").unwrap());
    assert_eq!(builds.get(), 3);
}

#[test]
fn watch_for_remove_replace() {
    // Editors often save by removing the file and writing a new one in its place.
    let builds = Cell::new(0);
    let mut disk = Disk { vertex: "A".to_string(), fragment: "B".to_string() };
    let mut cache = cache_over(&disk, &builds);

    disk.fragment = "B2".to_string();
    let events = vec![other(FRAGMENT), created(FRAGMENT), modified(FRAGMENT)];
    let r = access(&mut cache, &disk, &events, &builds);
    assert!(matches!(r, Refresh::Rebuilt(_)));
    assert_eq!(cache.artifact(), &compile("A", "B2").unwrap());
    assert_eq!(builds.get(), 2);

    // A removal alone does not rebuild.
    let r = access(&mut cache, &disk, &vec![other(FRAGMENT)], &builds);
    assert!(matches!(r, Refresh::Unchanged));
    assert_eq!(builds.get(), 2);
}

#[test]
fn construct_equals_direct_build() {
    let builds = Cell::new(0);
    let disk = Disk { vertex: "A".to_string(), fragment: "B".to_string() };
    let cache = cache_over(&disk, &builds);
    assert_eq!(cache.artifact(), &compile("A", "B").unwrap());
    assert_eq!(cache.artifact(), "pso(A,B)");
    assert_eq!(builds.get(), 1);
    assert_eq!(cache.resources(), &resources());
}

#[test]
fn construct_fails_on_invalid_source() {
    let r: Result<ArtifactCache<String>, String> =
        ArtifactCache::create(resources(), || compile("A", "invalid"));
    assert!(r.is_err());
}

#[test]
fn untouched_accesses_do_not_rebuild() {
    let builds = Cell::new(0);
    let disk = Disk { vertex: "A".to_string(), fragment: "B".to_string() };
    let mut cache = cache_over(&disk, &builds);
    for _ in 0..5 {
        let r = access(&mut cache, &disk, &vec![], &builds);
        assert!(matches!(r, Refresh::Unchanged));
        assert_eq!(cache.artifact(), "pso(A,B)");
    }
    assert_eq!(builds.get(), 1);
    assert_eq!(cache.artifact(), "pso(A,B)");
}

#[test]
fn modified_fragment_rebuilds() {
    let builds = Cell::new(0);
    let mut disk = Disk { vertex: "A".to_string(), fragment: "B".to_string() };
    let mut cache = cache_over(&disk, &builds);
    disk.fragment = "B2".to_string();
    access(&mut cache, &disk, &vec![modified(FRAGMENT)], &builds);
    assert_eq!(cache.artifact(), &compile("A", "B2").unwrap());
    assert_eq!(builds.get(), 2);
}

#[test]
fn invalid_fragment_keeps_previous() {
    let builds = Cell::new(0);
    let mut disk = Disk { vertex: "A".to_string(), fragment: "B".to_string() };
    let mut cache = cache_over(&disk, &builds);
    disk.fragment = "B2".to_string();
    access(&mut cache, &disk, &vec![modified(FRAGMENT)], &builds);

    disk.fragment = "invalid".to_string();
    let r = access(&mut cache, &disk, &vec![modified(FRAGMENT)], &builds);
    match r {
        Refresh::Failed(p, e) => {
            assert_eq!(p, FRAGMENT);
            assert_eq!(e, compile("A", "invalid").unwrap_err());
        }
        _ => panic!("expected a failed rebuild"),
    }
    assert_eq!(cache.artifact(), &compile("A", "B2").unwrap());

    // It stays so across quiet accesses and further invalid writes ...
    access(&mut cache, &disk, &vec![], &builds);
    access(&mut cache, &disk, &vec![modified(FRAGMENT)], &builds);
    assert_eq!(cache.artifact(), &compile("A", "B2").unwrap());

    // ... until a valid write succeeds.
    disk.fragment = "B4".to_string();
    let r = access(&mut cache, &disk, &vec![modified(FRAGMENT)], &builds);
    assert!(matches!(r, Refresh::Rebuilt(_)));
    assert_eq!(cache.artifact(), &compile("A", "B4").unwrap());
}

#[test]
fn unrelated_file_does_not_rebuild() {
    let builds = Cell::new(0);
    let disk = Disk { vertex: "A".to_string(), fragment: "B".to_string() };
    let mut cache = cache_over(&disk, &builds);
    let events = vec![
        modified("/project/shader/notes.txt"),
        created("/project/shader/frag.glsl~"),
        modified("/project/shader/frag"),
        modified("/project/shader/frag.glsl.swp"),
    ];
    let r = access(&mut cache, &disk, &events, &builds);
    assert!(matches!(r, Refresh::Unchanged));
    assert_eq!(cache.artifact(), &compile("A", "B").unwrap());
    assert_eq!(builds.get(), 1);
}

#[test]
fn two_writes_in_one_window_rebuild_once() {
    let builds = Cell::new(0);
    let mut disk = Disk { vertex: "A".to_string(), fragment: "B".to_string() };
    let mut cache = cache_over(&disk, &builds);
    disk.fragment = "B2".to_string();
    disk.fragment = "B3".to_string();
    let events = vec![modified(FRAGMENT), modified(FRAGMENT)];
    access(&mut cache, &disk, &events, &builds);
    assert_eq!(cache.artifact(), &compile("A", "B3").unwrap());
    assert_eq!(builds.get(), 2);
}

#[test]
fn static_cell_never_changes() {
    let mut cell = SimplePsoCell::new(compile("A", "B").unwrap(), 7u32);
    assert_eq!(cell.pso(), "pso(A,B)");
    assert_eq!(*cell.factory(), 7);
    *cell.factory() = 8;
    assert_eq!(cell.pso(), "pso(A,B)");
    assert_eq!(*cell.factory(), 8);
}

#[test]
fn last_relevant_path_is_reported() {
    let watched = resources();
    let events = vec![modified(VERTEX), other(FRAGMENT), created(FRAGMENT), modified("/x")];
    assert_eq!(relevant_change(&events, &watched), Some(FRAGMENT.to_string()));
    let events = vec![other(VERTEX), modified("/project/shader")];
    assert_eq!(relevant_change(&events, &watched), None);
    assert_eq!(relevant_change(&vec![], &watched), None);
}

#[test]
fn watch_dir_is_parent() {
    assert_eq!(watch_dir("/project/shader/vert.glsl"), "/project/shader");
    assert_eq!(watch_dir("/vert.glsl"), "/");
    assert_eq!(watch_dir("/"), "/");
}

#[test]
fn shared_directory_is_watched_once() {
    let dirs = watch_dirs(&resources());
    assert_eq!(dirs, vec!["/project/shader".to_string()]);
    let paths = vec![
        "/project/vs/vert.glsl".to_string(),
        "/project/fs/frag.glsl".to_string(),
        "/project/vs/geom.glsl".to_string(),
    ];
    assert_eq!(
        watch_dirs(&paths),
        vec!["/project/vs".to_string(), "/project/fs".to_string()]
    );
    assert_eq!(watch_dirs(&vec![]), Vec::<String>::new());
}

#[test]
fn watcher_builder_requires_both_shaders() {
    let r = WatcherPsoCellBuilder::using(()).into_sources();
    assert_eq!(r.err(), Some(PsoCellError::MissingVertexShader));
    let r = WatcherPsoCellBuilder::using(()).fragment_shader(FRAGMENT).into_sources();
    assert_eq!(r.err(), Some(PsoCellError::MissingVertexShader));
    let r = WatcherPsoCellBuilder::using(()).vertex_shader(VERTEX).into_sources();
    assert_eq!(r.err(), Some(PsoCellError::MissingFragmentShader));
}

#[test]
fn watcher_builder_keeps_configuration() {
    let s = WatcherPsoCellBuilder::using(5u8)
        .vertex_shader(VERTEX)
        .fragment_shader(FRAGMENT)
        .primitive(gfx::Primitive::LineStrip)
        .rasterizer(gfx::state::Rasterizer::new_fill().with_cull_back())
        .into_sources()
        .unwrap();
    assert_eq!(s.vertex_shader, VERTEX);
    assert_eq!(s.fragment_shader, FRAGMENT);
    assert_eq!(s.config.primitive, gfx::Primitive::LineStrip);
    assert_eq!(s.config.rasterizer, gfx::state::Rasterizer::new_fill().with_cull_back());
    assert_eq!(s.config.init, 5u8);
}

#[test]
fn simple_builder_defaults() {
    let s = SimplePsoCellBuilder::using(())
        .vertex_shader(b"A")
        .fragment_shader(b"B")
        .into_sources()
        .unwrap();
    assert_eq!(s.vertex_shader, b"A".to_vec());
    assert_eq!(s.fragment_shader, b"B".to_vec());
    assert_eq!(s.config.primitive, gfx::Primitive::TriangleList);
    assert_eq!(s.config.rasterizer, gfx::state::Rasterizer::new_fill());
}

#[test]
fn simple_builder_requires_both_shaders() {
    let r = SimplePsoCellBuilder::using(()).into_sources();
    assert_eq!(r.err(), Some(PsoCellError::MissingVertexShader));
    let r = SimplePsoCellBuilder::using(()).vertex_shader(b"A").into_sources();
    assert_eq!(r.err(), Some(PsoCellError::MissingFragmentShader));
}

#[test]
fn paths_match_exactly() {
    let watched = resources();
    assert!(contains_path(&FRAGMENT.to_string(), &watched));
    assert!(!contains_path(&"/project/shader/frag".to_string(), &watched));
    assert!(!contains_path(&"/project/shader/frag.glsl/".to_string(), &watched));
    assert!(!contains_path(&FRAGMENT.to_string(), &vec![]));
}

#[test]
fn only_creation_and_modification_are_relevant() {
    let watched = resources();
    assert!(event_is_relevant(&created(VERTEX), &watched));
    assert!(event_is_relevant(&modified(FRAGMENT), &watched));
    assert!(!event_is_relevant(&other(FRAGMENT), &watched));
    assert!(!event_is_relevant(&modified("/project/shader/other.glsl"), &watched));
}

#[test]
fn access_lends_current_artifact() {
    let builds = Cell::new(0);
    let mut disk = Disk { vertex: "A".to_string(), fragment: "B".to_string() };
    let mut cache = cache_over(&disk, &builds);

    let (done, pso) = cache.pso(&vec![], || -> Result<String, String> {
        panic!("an untouched batch must not rebuild")
    });
    assert!(matches!(done, Refresh::Unchanged));
    assert_eq!(pso, "pso(A,B)");

    disk.fragment = "B2".to_string();
    let (done, pso) = cache.pso(&vec![modified(FRAGMENT)], || {
        builds.set(builds.get() + 1);
        compile(&disk.vertex, &disk.fragment)
    });
    assert!(matches!(done, Refresh::Rebuilt(_)));
    assert_eq!(pso, "pso(A,B2)");

    disk.fragment = "invalid".to_string();
    let (done, pso) = cache.pso(&vec![created(FRAGMENT)], || compile(&disk.vertex, &disk.fragment));
    assert!(matches!(done, Refresh::Failed(_, _)));
    assert_eq!(pso, "pso(A,B2)");
    assert_eq!(builds.get(), 2);
}

#[test]
fn unrelated_events_never_call_the_build() {
    let builds = Cell::new(0);
    let disk = Disk { vertex: "A".to_string(), fragment: "B".to_string() };
    let mut cache = cache_over(&disk, &builds);
    let events = vec![modified("/project/shader/frag.glsl.swp"), other(FRAGMENT)];
    let r: Refresh<String> =
        cache.refresh(&events, || panic!("an unrelated change must not rebuild"));
    assert!(matches!(r, Refresh::Unchanged));
    assert_eq!(cache.artifact(), "pso(A,B)");
}

#[test]
fn watcher_builder_defaults() {
    let s = WatcherPsoCellBuilder::using(3u8)
        .vertex_shader(VERTEX)
        .fragment_shader(FRAGMENT)
        .into_sources()
        .unwrap();
    assert_eq!(s.config.primitive, gfx::Primitive::TriangleList);
    assert_eq!(s.config.rasterizer, gfx::state::Rasterizer::new_fill());
    assert_eq!(s.config.init, 3u8);
}

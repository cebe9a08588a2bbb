use multilinguarr::client::ArrError;
use multilinguarr::detection::DetectionError;
use multilinguarr::handler::error::HandlerError;
use multilinguarr::jellyfin::JellyfinError;
use multilinguarr::link::LinkError;
use multilinguarr::queue::QueueError;

#[test]
fn arr_error_messages() {
    let e = ArrError::Server { instance: "radarr-fr".to_owned(), endpoint: "/api/v3/movie".to_owned(), status: 503, body: "down".to_owned() };
    assert_eq!(e.message(), "server error 503 from `radarr-fr` on `/api/v3/movie`: down");
    let e = ArrError::Timeout { instance: "sonarr-en".to_owned(), timeout_ms: 15000 };
    assert_eq!(e.message(), "timeout after 15000ms talking to `sonarr-en`");
    let e = ArrError::NotFound { instance: "radarr-fr".to_owned(), endpoint: "/x".to_owned() };
    assert_eq!(e.message(), "not found: `/x` on `radarr-fr`");
    let e = ArrError::Conflict { instance: "i".to_owned(), endpoint: "/e".to_owned(), body: "b".to_owned() };
    assert_eq!(e.message(), "conflict 409 from `i` on `/e`: b");
}

#[test]
fn link_error_messages() {
    assert_eq!(LinkError::NotFound("/srv/a".to_owned()).message(), "path `\"/srv/a\"` not found");
    let e = LinkError::AlreadyExists { from: "/s".to_owned(), target: "/t".to_owned() };
    assert_eq!(e.message(), "target `\"/t\"` already exists and does not match source `\"/s\"` — refusing to overwrite");
    assert_eq!(
        LinkError::InvalidRelativePath("../x".to_owned()).message(),
        "relative path `\"../x\"` must not be absolute or contain `..` components"
    );
}

#[test]
fn detection_error_messages() {
    assert_eq!(DetectionError::FfprobeUnavailable.message(), "ffprobe binary not available on this host");
    let e = DetectionError::FfprobeExit { path: "/m.mkv".to_owned(), status: -1, stderr: "boom".to_owned() };
    assert_eq!(e.message(), "ffprobe exited with status -1 probing `/m.mkv`: boom");
    let e = DetectionError::FfprobeTimeout { path: "/m.mkv".to_owned(), timeout_ms: 30000 };
    assert_eq!(e.message(), "ffprobe timed out after 30000ms probing `/m.mkv`");
}

#[test]
fn handler_and_queue_error_messages() {
    assert_eq!(HandlerError::MissingField("movie").message(), "payload missing required field: movie");
    assert_eq!(
        HandlerError::UnknownInstance("ghost".to_owned()).message(),
        "instance `ghost` is not registered with the handler"
    );
    let inner = LinkError::PermissionDenied("/l".to_owned());
    assert_eq!(HandlerError::Link(inner).message(), "link manager error: permission denied on `\"/l\"`");
    let q = QueueError::InvalidStatus("weird".to_owned());
    assert_eq!(q.message(), "invalid job status in database: `weird` — schema check should have prevented this");
    assert_eq!(HandlerError::Queue(q).message().starts_with("queue error: invalid job status"), true);
    assert_eq!(JellyfinError::Status { status: 500 }.message(), "jellyfin server returned 500");
}

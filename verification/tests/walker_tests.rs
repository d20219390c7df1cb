use estacio_completer::api_client::{classify_response, ApiError};
use estacio_completer::paths::conclusion_path;
use estacio_completer::types::{
    Content, Course, Discipline, Matricula, OtherTheme, Status, Theme, User,
};
use estacio_completer::walker::{Action, Walker};

fn user_with(matriculas: Vec<Matricula>) -> User {
    User { matriculas, ..Default::default() }
}

fn matricula_with(matricula: &str, turmas: Vec<&str>) -> Matricula {
    Matricula {
        matricula: matricula.to_string(),
        turmas: turmas.into_iter().map(|t| t.to_string()).collect(),
        ..Default::default()
    }
}

fn course_with(id: &str, theme_ids: Vec<&str>) -> Course {
    Course {
        id: id.to_string(),
        disciplina: Discipline {
            temas: theme_ids
                .into_iter()
                .map(|t| Theme { id: t.to_string(), ..Default::default() })
                .collect(),
            ..Default::default()
        },
        ..Default::default()
    }
}

fn content_with(id: &str, concluido: bool) -> Content {
    Content {
        id: id.to_string(),
        status_conclusao: Status { concluido, ..Default::default() },
        ..Default::default()
    }
}

fn theme_detail_with(contents: Vec<Content>) -> OtherTheme {
    OtherTheme { conteudos: contents, ..Default::default() }
}

#[test]
fn empty_user_is_done_immediately() {
    let user = user_with(vec![]);
    let walker = Walker::new(&user);
    assert!(matches!(walker.next_action(), Action::Done));
    assert_eq!(walker.pending.len(), 0);
}

#[test]
fn single_pending_item_yields_exactly_one_post() {
    let user = user_with(vec![matricula_with("M1", vec!["T1"])]);
    let mut walker = Walker::new(&user);

    match walker.next_action() {
        Action::FetchCourse { turma, matricula } => {
            assert_eq!(turma, "T1");
            assert_eq!(matricula, "M1");
        }
        _ => panic!("expected a course fetch"),
    }
    walker.course_fetched(&course_with("T1", vec!["TH1"]));

    match walker.next_action() {
        Action::FetchTheme { turma, tema, matricula } => {
            assert_eq!(turma, "T1");
            assert_eq!(tema, "TH1");
            assert_eq!(matricula, "M1");
        }
        _ => panic!("expected a theme fetch"),
    }
    walker.theme_fetched(&theme_detail_with(vec![
        content_with("C1", false),
        content_with("C2", true),
    ]));

    assert!(matches!(walker.next_action(), Action::Done));
    assert_eq!(walker.pending.len(), 1);
    let item = &walker.pending[0];
    assert_eq!(item.matricula_id, "M1");
    assert_eq!(item.course_id, "T1");
    assert_eq!(item.theme_id, "TH1");
    assert_eq!(item.content_id, "C1");
    assert_eq!(
        conclusion_path(item),
        "/rest/turmas/T1/temas/TH1/conteudos/C1/conclusoes?matricula=M1"
    );
}

#[test]
fn completed_content_is_never_collected() {
    let user = user_with(vec![matricula_with("M1", vec!["T1"])]);
    let mut walker = Walker::new(&user);
    walker.course_fetched(&course_with("T1", vec!["TH1"]));
    walker.theme_fetched(&theme_detail_with(vec![
        content_with("C1", true),
        content_with("C2", true),
    ]));
    assert!(matches!(walker.next_action(), Action::Done));
    assert_eq!(walker.pending.len(), 0);
}

#[test]
fn traversal_follows_upstream_order() {
    let user = user_with(vec![
        matricula_with("M1", vec!["A", "B"]),
        matricula_with("M2", vec!["C"]),
    ]);
    let walker = Walker::new(&user);
    let queued: Vec<(String, String)> = walker
        .courses
        .iter()
        .map(|c| (c.matricula_id.clone(), c.turma_id.clone()))
        .collect();
    assert_eq!(
        queued,
        vec![
            ("M1".to_string(), "A".to_string()),
            ("M1".to_string(), "B".to_string()),
            ("M2".to_string(), "C".to_string()),
        ]
    );
}

#[test]
fn themes_are_visited_in_upstream_order() {
    let user = user_with(vec![matricula_with("M1", vec!["T1"])]);
    let mut walker = Walker::new(&user);
    walker.course_fetched(&course_with("T1", vec!["TH1", "TH2", "TH3"]));
    let queued: Vec<String> = walker.themes.iter().map(|t| t.theme_id.clone()).collect();
    assert_eq!(queued, vec!["TH1", "TH2", "TH3"]);
    walker.theme_fetched(&theme_detail_with(vec![content_with("C1", false)]));
    walker.theme_fetched(&theme_detail_with(vec![content_with("C2", false)]));
    walker.theme_fetched(&theme_detail_with(vec![content_with("C3", false)]));
    let collected: Vec<String> =
        walker.pending.iter().map(|d| d.content_id.clone()).collect();
    assert_eq!(collected, vec!["C1", "C2", "C3"]);
}

#[test]
fn failed_course_is_skipped_and_traversal_continues() {
    let user = user_with(vec![matricula_with("M1", vec!["T1", "T2"])]);
    let mut walker = Walker::new(&user);

    // Upstream answers the first course detail with a 500: the course is
    // skipped, its themes are never queued, and no error surfaces.
    let outcome = classify_response(500, "oops".to_string());
    match outcome {
        Err(ApiError::HttpStatus { status, body }) => {
            assert_eq!(status, 500);
            assert_eq!(body, "oops");
            walker.course_failed();
        }
        _ => panic!("a 500 must classify as an error"),
    }
    assert_eq!(walker.themes.len(), 0);
    assert_eq!(walker.pending.len(), 0);

    match walker.next_action() {
        Action::FetchCourse { turma, matricula } => {
            assert_eq!(turma, "T2");
            assert_eq!(matricula, "M1");
        }
        _ => panic!("the traversal must continue with the next course"),
    }
    walker.course_fetched(&course_with("T2", vec!["TH9"]));
    walker.theme_fetched(&theme_detail_with(vec![content_with("C9", false)]));
    assert!(matches!(walker.next_action(), Action::Done));
    assert_eq!(walker.pending.len(), 1);
    assert_eq!(walker.pending[0].course_id, "T2");
}

#[test]
fn failed_theme_is_skipped_and_traversal_continues() {
    let user = user_with(vec![matricula_with("M1", vec!["T1"])]);
    let mut walker = Walker::new(&user);
    walker.course_fetched(&course_with("T1", vec!["TH1", "TH2"]));
    walker.theme_failed();
    walker.theme_fetched(&theme_detail_with(vec![content_with("C2", false)]));
    assert!(matches!(walker.next_action(), Action::Done));
    assert_eq!(walker.pending.len(), 1);
    assert_eq!(walker.pending[0].theme_id, "TH2");
    assert_eq!(walker.pending[0].content_id, "C2");
}

use tsos::error::Error;
use tsos::pipeline::{Action, Event, Pipeline, Stage};

fn s(x: &str) -> String {
    String::from(x)
}

fn secrets(entries: &[(&str, &[&str])]) -> Vec<(String, Vec<String>)> {
    entries.iter().map(|(n, ts)| (s(n), ts.iter().map(|t| s(t)).collect())).collect()
}

fn dirs(d: &[&str]) -> Vec<String> {
    d.iter().map(|x| s(x)).collect()
}

/// Brings a pipeline through isolation and staging up to its first search.
fn staged(p: &mut Pipeline) -> Action {
    assert_eq!(p.step(Event::Done), Action::MakePrivate);
    assert_eq!(p.step(Event::Done), Action::CreateStaging { template: s("/tmp/tsos-XXXXXX") });
    assert_eq!(p.step(Event::Staged(s("/tmp/tsos-q1w2e3"))), Action::MountStaging { path: s("/tmp/tsos-q1w2e3") });
    p.step(Event::Done)
}

/// Answers every step of one template with success; returns the bound destination and the action after the bind.
fn overlay(p: &mut Pipeline, provider: &str, template: &str, destination: &str, after_search: Action) -> Action {
    assert_eq!(after_search, Action::CreateFile { path: s(destination) });
    assert_eq!(p.step(Event::Done), Action::CheckTemplate { path: s(template) });
    assert_eq!(
        p.step(Event::IsFile(true)),
        Action::RunProvider { provider: s(provider), template: s(template), destination: s(destination) }
    );
    assert_eq!(
        p.step(Event::Exited(Some(0))),
        Action::CopyMode { source: s(template), destination: s(destination) }
    );
    assert_eq!(p.step(Event::Done), Action::CopyOwner { source: s(template), destination: s(destination) });
    assert_eq!(p.step(Event::Done), Action::Bind { source: s(destination), target: s(template) });
    p.step(Event::Done)
}

fn local_order(first: &str, second: &str, found: Vec<bool>) -> String {
    let path = dirs(&[first, second, "/etc/tsos.d", "/usr/lib/tsos"]);
    let (mut p, a) = Pipeline::new(secrets(&[("provider", &["source"])]), path.clone(), s("/tmp"));
    assert_eq!(a, Action::Unshare);
    let search = staged(&mut p);
    let cands: Vec<String> = path.iter().map(|d| format!("{}/provider", d)).collect();
    assert_eq!(search, Action::Search { dirs: path, candidates: cands });
    let next = p.step(Event::Found(found));
    assert_eq!(p.stage(), Stage::Minting { secret: 0, template: 0 });
    assert_eq!(next, Action::CreateFile { path: s("/tmp/tsos-q1w2e3/tsos-final-00000000") });
    assert_eq!(p.step(Event::Done), Action::CheckTemplate { path: s("source") });
    match p.step(Event::IsFile(true)) {
        Action::RunProvider { provider, .. } => provider,
        other => panic!("unexpected action {:?}", other),
    }
}

#[test]
fn provider_local_order() {
    assert_eq!(local_order("P/a", "P/b", vec![true, true, false, false]), "P/a/provider");
    assert_eq!(local_order("P/b", "P/a", vec![true, true, false, false]), "P/b/provider");
}

#[test]
fn provider_local_before_global() {
    assert_eq!(local_order("P/a", "P/b", vec![false, true, true, true]), "P/b/provider");
}

#[test]
fn single_provider_full_run() {
    let path = dirs(&["P", "/etc/tsos.d", "/usr/lib/tsos"]);
    let (mut p, _) = Pipeline::new(secrets(&[("provider", &["source1.conf"])]), path, s("/tmp"));
    let _search = staged(&mut p);
    let next = p.step(Event::Found(vec![true, false, false]));
    let after = overlay(&mut p, "P/provider", "source1.conf", "/tmp/tsos-q1w2e3/tsos-final-00000000", next);
    assert_eq!(after, Action::Finish);
    assert_eq!(p.stage(), Stage::Finished);
}

#[test]
fn multiple_providers_in_list_order() {
    let path = dirs(&["P/a", "P/b", "/etc/tsos.d", "/usr/lib/tsos"]);
    let entries = secrets(&[("provider_a", &["s1", "s2"]), ("provider_b", &["s3"])]);
    let (mut p, _) = Pipeline::new(entries, path.clone(), s("/tmp"));
    let search_a = staged(&mut p);
    assert!(matches!(search_a, Action::Search { .. }));
    let next = p.step(Event::Found(vec![true, false, false, false]));
    let next = overlay(&mut p, "P/a/provider_a", "s1", "/tmp/tsos-q1w2e3/tsos-final-00000000", next);
    let next = overlay(&mut p, "P/a/provider_a", "s2", "/tmp/tsos-q1w2e3/tsos-final-00000001", next);
    let cands: Vec<String> = path.iter().map(|d| format!("{}/provider_b", d)).collect();
    assert_eq!(next, Action::Search { dirs: path, candidates: cands });
    let next = p.step(Event::Found(vec![false, true, false, false]));
    let next = overlay(&mut p, "P/b/provider_b", "s3", "/tmp/tsos-q1w2e3/tsos-final-00000002", next);
    assert_eq!(next, Action::Finish);
}

#[test]
fn no_secrets_finishes_after_staging() {
    let (mut p, _) = Pipeline::new(Vec::new(), dirs(&["/etc/tsos.d"]), s("/tmp"));
    assert_eq!(staged(&mut p), Action::Finish);
}

#[test]
fn entry_without_templates_is_still_searched() {
    let path = dirs(&["/etc/tsos.d"]);
    let (mut p, _) = Pipeline::new(secrets(&[("provider", &[])]), path, s("/tmp"));
    assert!(matches!(staged(&mut p), Action::Search { .. }));
    assert_eq!(p.step(Event::Found(vec![false])), Action::Abort(Error::ProviderNotFound(s("provider"))));
}

#[test]
fn isolation_failures() {
    let (mut p, _) = Pipeline::new(Vec::new(), Vec::new(), s("/tmp"));
    assert_eq!(p.step(Event::Failed(1)), Action::Abort(Error::NamespaceUnshareFailed(1)));
    assert_eq!(p.stage(), Stage::Aborted);
    let (mut p, _) = Pipeline::new(Vec::new(), Vec::new(), s("/tmp"));
    p.step(Event::Done);
    assert_eq!(p.step(Event::Failed(22)), Action::Abort(Error::PropagationChangeFailed(22)));
}

#[test]
fn staging_failures() {
    let (mut p, _) = Pipeline::new(Vec::new(), Vec::new(), s("/tmp"));
    p.step(Event::Done);
    p.step(Event::Done);
    assert_eq!(p.step(Event::Failed(13)), Action::Abort(Error::StagingCreateFailed(13)));
    let (mut p, _) = Pipeline::new(Vec::new(), Vec::new(), s("/tmp"));
    p.step(Event::Done);
    p.step(Event::Done);
    p.step(Event::Staged(s("/tmp/tsos-aaaaaa")));
    assert_eq!(p.step(Event::Failed(1)), Action::Abort(Error::StagingMountFailed(1)));
}

#[test]
fn invalid_source_name() {
    let (mut p, _) = Pipeline::new(secrets(&[("a/..", &["source"])]), dirs(&["P"]), s("/tmp"));
    assert_eq!(staged(&mut p), Action::Abort(Error::InvalidSourceName(s("a/.."))));
}

#[test]
fn name_with_directories_is_reduced() {
    let (mut p, _) = Pipeline::new(secrets(&[("../../bin/provider", &["source"])]), dirs(&["P"]), s("/tmp"));
    assert_eq!(staged(&mut p), Action::Search { dirs: dirs(&["P"]), candidates: dirs(&["P/provider"]) });
}

fn rendering(template_is_file: bool) -> (Pipeline, Action) {
    let (mut p, _) = Pipeline::new(secrets(&[("provider", &["missing"])]), dirs(&["P"]), s("/tmp"));
    staged(&mut p);
    p.step(Event::Found(vec![true]));
    p.step(Event::Done);
    let a = p.step(Event::IsFile(template_is_file));
    (p, a)
}

#[test]
fn missing_source() {
    let (_, a) = rendering(false);
    assert_eq!(a, Action::Abort(Error::TemplateNotFound(s("provider"), s("missing"))));
}

#[test]
fn provider_exit_status() {
    let (mut p, _) = rendering(true);
    assert_eq!(p.step(Event::Exited(Some(3))), Action::Abort(Error::ProviderFailed(s("P/provider"), 3)));
    let (mut p, _) = rendering(true);
    assert_eq!(p.step(Event::Exited(None)), Action::Abort(Error::ProviderTerminated(s("P/provider"))));
    let (mut p, _) = rendering(true);
    assert_eq!(p.step(Event::Failed(2)), Action::Abort(Error::OsError(2)));
}

#[test]
fn mirror_and_bind_failures() {
    let (mut p, _) = rendering(true);
    p.step(Event::Exited(Some(0)));
    assert_eq!(p.step(Event::Failed(1)), Action::Abort(Error::PermissionCopyFailed(1)));
    let (mut p, _) = rendering(true);
    p.step(Event::Exited(Some(0)));
    p.step(Event::Done);
    assert_eq!(p.step(Event::Failed(1)), Action::Abort(Error::OwnershipCopyFailed(1)));
    let (mut p, _) = rendering(true);
    p.step(Event::Exited(Some(0)));
    p.step(Event::Done);
    p.step(Event::Done);
    assert_eq!(p.step(Event::Failed(16)), Action::Abort(Error::BindFailed(16)));
}

#[test]
fn create_file_failure() {
    let (mut p, _) = Pipeline::new(secrets(&[("provider", &["t"])]), dirs(&["P"]), s("/tmp"));
    staged(&mut p);
    p.step(Event::Found(vec![true]));
    assert_eq!(p.step(Event::Failed(28)), Action::Abort(Error::OsError(28)));
}

#[test]
fn answers_out_of_turn() {
    let (mut p, _) = Pipeline::new(Vec::new(), Vec::new(), s("/tmp"));
    assert_eq!(p.step(Event::IsFile(true)), Action::Abort(Error::UnexpectedEvent));
    let (mut p, _) = Pipeline::new(secrets(&[("provider", &["t"])]), dirs(&["P", "Q"]), s("/tmp"));
    staged(&mut p);
    assert_eq!(p.step(Event::Found(vec![true])), Action::Abort(Error::UnexpectedEvent));
    let (mut p, _) = Pipeline::new(Vec::new(), Vec::new(), s("/tmp"));
    staged(&mut p);
    assert_eq!(p.stage(), Stage::Finished);
    assert_eq!(p.step(Event::Done), Action::Abort(Error::UnexpectedEvent));
}

use rss_reader::supervisor::launcher::{
    choose_binary, suffix_of, worker_candidates, Platform, SearchDir, WORKER_PORT_ARGUMENT,
};
use rss_reader::supervisor::state::LaunchError;

#[test]
fn worker_is_told_to_pick_its_port() {
    assert_eq!(WORKER_PORT_ARGUMENT, "--port=0");
}

#[test]
fn only_windows_needs_an_extension() {
    assert_eq!(suffix_of(Platform::Windows), ".exe");
    assert_eq!(suffix_of(Platform::Linux), "");
    assert_eq!(suffix_of(Platform::MacOs), "");
}

#[test]
fn candidates_in_search_order() {
    let c = worker_candidates("worker", "x86_64-unknown-linux-gnu", Platform::Linux);
    let got: Vec<(SearchDir, &str)> = c.iter().map(|c| (c.dir, c.file_name.as_str())).collect();
    assert_eq!(
        got,
        vec![
            (SearchDir::DevelopmentTree, "worker-x86_64-unknown-linux-gnu"),
            (SearchDir::BesideExecutable, "worker"),
            (SearchDir::BesideExecutable, "worker-x86_64-unknown-linux-gnu"),
            (SearchDir::Bundle, "worker"),
        ]
    );
}

#[test]
fn candidates_on_windows_carry_the_extension() {
    let c = worker_candidates("worker", "x86_64-pc-windows-msvc", Platform::Windows);
    let got: Vec<(SearchDir, &str)> = c.iter().map(|c| (c.dir, c.file_name.as_str())).collect();
    assert_eq!(
        got,
        vec![
            (SearchDir::DevelopmentTree, "worker-x86_64-pc-windows-msvc.exe"),
            (SearchDir::BesideExecutable, "worker.exe"),
            (SearchDir::BesideExecutable, "worker-x86_64-pc-windows-msvc.exe"),
            (SearchDir::Bundle, "worker.exe"),
        ]
    );
}

#[test]
fn first_existing_binary_is_chosen() {
    assert_eq!(choose_binary(&vec![true, true, true, true]), Ok(0));
    assert_eq!(choose_binary(&vec![false, true, false, true]), Ok(1));
    assert_eq!(choose_binary(&vec![false, false, false, true]), Ok(3));
}

#[test]
fn missing_binary_is_a_spawn_failure() {
    assert_eq!(choose_binary(&vec![false, false, false, false]), Err(LaunchError::SpawnFailure));
    assert_eq!(choose_binary(&vec![]), Err(LaunchError::SpawnFailure));
}

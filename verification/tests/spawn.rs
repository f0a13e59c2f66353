use futures::executor::ThreadPool;
use futures_diagnose::DiagSpawn;

#[test]
fn basic() {
    let diag_spawn = DiagSpawn::new(ThreadPool::new().unwrap());
    let _ = diag_spawn;
}

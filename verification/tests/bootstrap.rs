use vantumpos::migrations::migration_plan;
use vantumpos::users::initial_admin_account;

#[test]
fn new_seeds_initial_admin_user() {
    let admin = initial_admin_account(0).expect("an empty database gets the bootstrap admin");
    assert_eq!(
        (admin.username.as_str(), admin.display_name.as_str(), admin.role.as_str(), admin.active),
        ("admin", "Administrator", "admin", true)
    );
    assert_eq!(admin.pin.as_deref(), Some("1234"));
    assert!(admin.password.is_none());
}

#[test]
fn an_existing_account_means_no_bootstrap_admin() {
    assert!(initial_admin_account(1).is_none());
    assert!(initial_admin_account(42).is_none());
}

#[test]
fn a_fresh_database_runs_every_migration_once_and_a_second_run_none() {
    let catalog: Vec<i64> = (1..=23).collect();
    let first = migration_plan(&catalog, &vec![]);
    assert!(first.iter().all(|run| *run));
    let applied: Vec<i64> = catalog.iter().zip(&first).filter(|(_, run)| **run).map(|(v, _)| *v).collect();
    assert_eq!(applied.iter().filter(|v| **v == 1).count(), 1, "the initial migration is recorded once");
    let second = migration_plan(&catalog, &applied);
    assert!(second.iter().all(|run| !*run));
}

#[test]
fn an_old_database_runs_only_the_migrations_it_lacks() {
    let catalog: Vec<i64> = (1..=23).collect();
    let applied: Vec<i64> = vec![3, 1, 2];
    let plan = migration_plan(&catalog, &applied);
    assert_eq!(plan.len(), 23);
    assert_eq!(&plan[..4], &[false, false, false, true]);
    assert_eq!(plan.iter().filter(|run| **run).count(), 20);
}

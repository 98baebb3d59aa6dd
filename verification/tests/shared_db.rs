use std::path::PathBuf;

use whitenoise::whitenoise::database::shared_db::SharedDatabase;
use whitenoise::whitenoise::database::Database;

#[test]
fn shared_database_reports_its_path() {
    let path = PathBuf::from("/data/shared.db");
    let db = SharedDatabase::new(Database { path: path.clone() });
    assert_eq!(db.path(), &path);
}

#[test]
fn shared_database_can_be_handed_out() {
    let path = PathBuf::from("/data/shared.db");
    let db = SharedDatabase::new(Database { path: path.clone() });
    let copy = db.clone();
    assert_eq!(copy.path(), db.path());
    assert_eq!(copy.inner.clone().path, path);
}

use jom::app::App;
use jom::catalog::{Distributions, Distro, Package};

fn one_distro_catalog() -> Distributions {
    Distributions(vec![Distro {
        name: "debian".to_string(),
        packages: vec![Package {
            name: "apt".to_string(),
            install: vec!["apt-get install".to_string()],
            uninstall: vec!["apt-get remove".to_string()],
        }],
    }])
}

#[test]
fn new_app_starts_clean_and_running() {
    let app = App::new(one_distro_catalog());
    assert_eq!(app.selected_distro, 0);
    assert!(app.selected_packages.is_empty());
    assert!(app.is_running);
}

#[test]
fn new_catalog_is_empty() {
    let d = Distributions::new();
    assert_eq!(d.len(), 0);
}

#[test]
fn set_distro_overwrites_index() {
    let mut app = App::new(one_distro_catalog());
    app.set_distro(5);
    assert_eq!(app.selected_distro, 5);
    app.set_distro(0);
    assert_eq!(app.selected_distro, 0);
}

#[test]
fn set_package_twice_keeps_one_entry() {
    let mut app = App::new(one_distro_catalog());
    app.set_package("apt".to_string());
    app.set_package("apt".to_string());
    assert_eq!(app.selected_packages.len(), 1);
    assert_eq!(app.selected_packages[0], "apt");
}

#[test]
fn set_package_keeps_distinct_names() {
    let mut app = App::new(one_distro_catalog());
    app.set_package("apt".to_string());
    app.set_package("dnf".to_string());
    app.set_package("apt".to_string());
    assert_eq!(app.selected_packages.len(), 2);
    assert!(app.selected_packages.contains(&"apt".to_string()));
    assert!(app.selected_packages.contains(&"dnf".to_string()));
}

#[test]
fn get_distro_name_reads_catalog() {
    let app = App::new(one_distro_catalog());
    assert_eq!(app.get_distro_name(0), "debian");
    let d = one_distro_catalog();
    assert_eq!(d.get_distro(0), "debian");
}

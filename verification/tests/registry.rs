use command_bridge::registry::{CHECK_BACKEND_HEALTH, GET_APP_CONFIG, OPEN_EXTERNAL_LINK};
use command_bridge::Operation;

const OPERATIONS: [Operation; 3] =
    [Operation::GetAppConfig, Operation::CheckBackendHealth, Operation::OpenExternalLink];

#[test]
fn operation_names_are_those_of_the_interface() {
    assert_eq!(Operation::GetAppConfig.name(), "get_app_config");
    assert_eq!(Operation::CheckBackendHealth.name(), "check_backend_health");
    assert_eq!(Operation::OpenExternalLink.name(), "open_external_link");
    assert_eq!(GET_APP_CONFIG, "get_app_config");
    assert_eq!(CHECK_BACKEND_HEALTH, "check_backend_health");
    assert_eq!(OPEN_EXTERNAL_LINK, "open_external_link");
}

#[test]
fn from_name_finds_each_operation() {
    assert_eq!(Operation::from_name("get_app_config"), Some(Operation::GetAppConfig));
    assert_eq!(Operation::from_name("check_backend_health"), Some(Operation::CheckBackendHealth));
    assert_eq!(Operation::from_name("open_external_link"), Some(Operation::OpenExternalLink));
}

#[test]
fn from_name_inverts_name() {
    for operation in OPERATIONS {
        assert_eq!(Operation::from_name(operation.name()), Some(operation));
    }
}

#[test]
fn from_name_finds_nothing_under_other_names() {
    let unknown = [
        "",
        " ",
        "get_app_config ",
        " get_app_config",
        "Get_App_Config",
        "GET_APP_CONFIG",
        "get_app_confi",
        "get_app_configs",
        "get-app-config",
        "getAppConfig",
        "check_backend_healt",
        "check_backend_healthy",
        "open_external_lin",
        "open_external_links",
        "open_external_link\n",
        "open_external_link\u{0}",
        "open_external_l\u{0131}nk",
        "close_external_link",
        "get_app_configcheck_backend_health",
    ];
    for name in unknown {
        assert_eq!(Operation::from_name(name), None, "{:?}", name);
    }
}

#[test]
fn from_name_tells_names_of_equal_length_apart() {
    assert_eq!(Operation::from_name("get_app_confih"), None);
    assert_eq!(Operation::from_name("het_app_config"), None);
    assert_eq!(Operation::from_name("check_backend_healti"), None);
    assert_eq!(Operation::from_name("open_external_lino"), None);
    assert_eq!(Operation::from_name("open_externaL_link"), None);
}

#[test]
fn no_two_operations_share_a_name() {
    for first in OPERATIONS {
        for second in OPERATIONS {
            assert_eq!(first.name() == second.name(), first == second);
        }
    }
}

use browser_sessions::error::{Status, ToolError};
use browser_sessions::ports::{
    bind_address, check_port, get_default_port, known_default_port, loopback_addresses, PortSearch,
};

fn invalid(reason: &str) -> ToolError {
    ToolError { status: Status::InvalidArg, reason: reason.to_string() }
}

fn generic(reason: &str) -> ToolError {
    ToolError { status: Status::GenericFailure, reason: reason.to_string() }
}

fn scan(mut search: PortSearch, free: &[u16]) -> (PortSearch, Vec<u16>) {
    let mut tried = Vec::new();
    while let Some(port) = search.next_probe() {
        tried.push(port);
        search.record(free.contains(&port));
    }
    (search, tried)
}

#[test]
fn test_get_default_port_react() {
    let result = get_default_port("react".to_string());
    assert!(result.is_ok());
    assert_eq!(result.unwrap(), 3000);
}

#[test]
fn test_get_default_port_vite() {
    let result = get_default_port("vite".to_string());
    assert!(result.is_ok());
    assert_eq!(result.unwrap(), 5173);
}

#[test]
fn test_get_default_port_unknown() {
    let result = get_default_port("unknownframework".to_string());
    assert!(result.is_err());
}

#[test]
fn default_port_ignores_case() {
    assert_eq!(get_default_port("React".to_string()), Ok(3000));
    assert_eq!(get_default_port("NEXT.JS".to_string()), Ok(3000));
    assert_eq!(get_default_port("VueJS".to_string()), Ok(8080));
    assert_eq!(known_default_port("React"), None);
}

#[test]
fn unknown_framework_is_named_as_given() {
    assert_eq!(get_default_port("Django".to_string()), Err(invalid("Unknown framework: Django")));
    assert_eq!(get_default_port("".to_string()), Err(invalid("Unknown framework: ")));
}

#[test]
fn every_known_framework_has_its_port() {
    for (name, port) in [
        ("react", 3000u16),
        ("create-react-app", 3000),
        ("cra", 3000),
        ("next", 3000),
        ("nextjs", 3000),
        ("next.js", 3000),
        ("vite", 5173),
        ("vitejs", 5173),
        ("vue", 8080),
        ("vuejs", 8080),
        ("angular", 4200),
        ("svelte", 5173),
        ("sveltekit", 5173),
        ("nuxt", 3000),
        ("nuxtjs", 3000),
        ("express", 3000),
        ("fastify", 3000),
        ("nest", 3000),
        ("nestjs", 3000),
        ("gatsby", 8000),
        ("remix", 3000),
        ("astro", 3000),
    ] {
        assert_eq!(known_default_port(name), Some(port));
        assert_eq!(get_default_port(name.to_string()), Ok(port));
    }
    assert_eq!(known_default_port("rails"), None);
}

#[test]
fn port_zero_is_refused() {
    assert_eq!(check_port(0), Err(invalid("Port number must be between 1 and 65535")));
    assert_eq!(check_port(1), Ok(()));
    assert_eq!(check_port(65535), Ok(()));
}

#[test]
fn addresses_name_the_port() {
    assert_eq!(bind_address(3000), "0.0.0.0:3000");
    assert_eq!(bind_address(65535), "0.0.0.0:65535");
    assert_eq!(loopback_addresses(8080), vec!["127.0.0.1:8080", "[::1]:8080", "localhost:8080"]);
}

#[test]
fn reversed_range_is_refused() {
    assert_eq!(
        PortSearch::single(5000, 4000).err(),
        Some(invalid("Start port (5000) must be less than or equal to end port (4000)"))
    );
    assert_eq!(
        PortSearch::new(5000, 4000, 0).err(),
        Some(invalid("Start port (5000) must be less than or equal to end port (4000)"))
    );
}

#[test]
fn zero_bound_is_refused() {
    assert_eq!(PortSearch::single(0, 100).err(), Some(invalid("Port numbers must be between 1 and 65535")));
    assert_eq!(PortSearch::single(100, 0).err(), Some(invalid("Port numbers must be between 1 and 65535")));
    assert_eq!(PortSearch::new(0, 0, 3).err(), Some(invalid("Port numbers must be between 1 and 65535")));
}

#[test]
fn too_many_ports_are_refused() {
    assert_eq!(
        PortSearch::new(50000, 50005, 10).err(),
        Some(invalid("Requested 10 ports but range only contains 6 ports"))
    );
    assert!(PortSearch::new(50000, 50005, 6).is_ok());
    assert!(PortSearch::new(1, 65535, 65535).is_ok());
    assert_eq!(
        PortSearch::new(1, 65535, 65536).err(),
        Some(invalid("Requested 65536 ports but range only contains 65535 ports"))
    );
}

#[test]
fn single_search_stops_at_the_first_free_port() {
    let search = PortSearch::single(3000, 3010).unwrap();
    assert_eq!(search.next_probe(), Some(3000));
    let (search, tried) = scan(search, &[3002, 3004]);
    assert_eq!(tried, vec![3000, 3001, 3002]);
    assert_eq!(search.finish_single(), Ok(3002));
}

#[test]
fn single_search_fails_when_nothing_is_free() {
    let (search, tried) = scan(PortSearch::single(3000, 3003).unwrap(), &[]);
    assert_eq!(tried, vec![3000, 3001, 3002, 3003]);
    assert_eq!(search.finish_single(), Err(generic("No available ports found in range 3000-3003")));
}

#[test]
fn search_finds_free_ports_in_rising_order() {
    let (search, tried) = scan(PortSearch::new(50000, 50100, 3).unwrap(), &[50007, 50001, 50003, 50050]);
    assert_eq!(tried, vec![50000, 50001, 50002, 50003, 50004, 50005, 50006, 50007]);
    assert_eq!(search.finish(), Ok(vec![50001, 50003, 50007]));
}

#[test]
fn search_reports_how_many_it_found() {
    let (search, tried) = scan(PortSearch::new(10, 14, 3).unwrap(), &[11, 14]);
    assert_eq!(tried, vec![10, 11, 12, 13, 14]);
    assert_eq!(search.finish(), Err(generic("Only found 2 available ports, but 3 were requested")));
}

#[test]
fn search_for_no_ports_tries_nothing() {
    let search = PortSearch::new(10, 14, 0).unwrap();
    assert_eq!(search.next_probe(), None);
    assert_eq!(search.finish(), Ok(vec![]));
}

#[test]
fn search_reaches_the_last_port() {
    let (search, tried) = scan(PortSearch::single(65534, 65535).unwrap(), &[65535]);
    assert_eq!(tried, vec![65534, 65535]);
    assert_eq!(search.finish_single(), Ok(65535));
    let (search, _) = scan(PortSearch::single(65535, 65535).unwrap(), &[]);
    assert_eq!(search.next_probe(), None);
    assert_eq!(search.finish_single(), Err(generic("No available ports found in range 65535-65535")));
}

#[test]
fn record_without_a_pending_port_changes_nothing() {
    let (mut search, _) = scan(PortSearch::single(10, 12).unwrap(), &[11]);
    let before = search.clone();
    search.record(true);
    search.record(false);
    assert_eq!(search, before);
    assert_eq!(search.finish_single(), Ok(11));
}

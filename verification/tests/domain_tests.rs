use ygege::domain::{host_of_url, leaked_ip_from_body, probe_url, redirect_domains, DomainRace, RaceStep};

#[test]
fn redirect_domains_and_probe() {
    assert_eq!(redirect_domains(), vec!["yggtorrent.ch", "ygg.to", "yggtorrent.to", "yggtorrent.is"]);
    assert_eq!(probe_url("ygg.to"), "https://ygg.to");
}

#[test]
fn host_of_solution_url() {
    assert_eq!(host_of_url("https://www.yggtorrent.top/").unwrap(), "www.yggtorrent.top");
    assert_eq!(host_of_url("https://www.yggtorrent.top").unwrap(), "www.yggtorrent.top");
    assert_eq!(host_of_url("about:blank").unwrap_err(), "No domain found");
}

fn run(outcomes: Vec<Result<&str, &str>>) -> Result<String, String> {
    let mut step = DomainRace::new(outcomes.len());
    for o in outcomes {
        match step {
            RaceStep::Decided(r) => return r,
            RaceStep::Waiting(race) => {
                step = race.finished(o.map(|s| s.to_string()).map_err(|e| e.to_string()));
            }
        }
    }
    match step {
        RaceStep::Decided(r) => r,
        RaceStep::Waiting(_) => panic!("undecided"),
    }
}

#[test]
fn race_first_success_or_last_failure() {
    assert_eq!(run(vec![Err("a"), Ok("ygg.one"), Ok("ygg.two"), Err("d")]), Ok("ygg.one".to_string()));
    assert_eq!(run(vec![Err("a"), Err("b"), Err("c"), Err("last")]), Err("last".to_string()));
    assert_eq!(run(vec![]), Err("All domain checks failed".to_string()));
}

#[test]
fn leaked_ip_is_trimmed() {
    assert_eq!(leaked_ip_from_body("  203.0.113.7\r\n"), "203.0.113.7");
}

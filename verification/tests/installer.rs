use tower_installer::checks::{evaluate_runtime_check, first_missing, step_outcome};
use tower_installer::classify::{
    classify, expected_requirement, required_requirement, Classification,
};
use tower_installer::compose::published_compose_doc;
use tower_installer::errors::{HardwareMetric, InstallError};
use tower_installer::gate::{evaluate_gate, unavailable_ports, ActualCapabilities};
use tower_installer::paths::resolve_path;
use tower_installer::plan::{
    image_list, inspect_image_line, load_images_line, plan_from_archive, plan_from_image,
    plan_from_source, select_mode, setup_chain, shutdown_line, DeploymentMode,
};
use tower_installer::report::{build_report, port_list_string, Tone};
use tower_installer::sequencer::Sequencer;
use tower_installer::text::{decimal_string, join_strings};

fn actual(cpu: u64, mem: u64, disk: u64, unavailable: Vec<u16>) -> ActualCapabilities {
    ActualCapabilities {
        cpu_cores: cpu,
        total_memory_bytes: mem,
        free_storage_bytes: disk,
        unavailable_ports: unavailable,
    }
}

const GIB: u64 = 1 << 30;

#[test]
fn classify_below_required() {
    assert_eq!(classify(1, 2, 4), Classification::BelowRequired);
    assert_eq!(classify(0, 2, 4), Classification::BelowRequired);
}

#[test]
fn classify_boundaries() {
    // the required threshold is the exclusive lower bound of BelowExpected
    assert_eq!(classify(2, 2, 4), Classification::BelowExpected);
    assert_eq!(classify(3, 2, 4), Classification::BelowExpected);
    // the expected threshold itself already meets the target
    assert_eq!(classify(4, 2, 4), Classification::MeetsExpected);
    assert_eq!(classify(5, 2, 4), Classification::MeetsExpected);
}

#[test]
fn gate_fails_on_cpu_first() {
    let req = required_requirement();
    let r = evaluate_gate(actual(1, 4 * GIB, 40 * GIB, vec![]), &req, false);
    assert_eq!(
        r.unwrap_err(),
        InstallError::HardwareInsufficient(HardwareMetric::Cpu)
    );
}

#[test]
fn gate_error_messages() {
    let req = required_requirement();
    let cpu = evaluate_gate(actual(1, 4 * GIB, 40 * GIB, vec![]), &req, false);
    assert_eq!(cpu.unwrap_err().message(), "CPU cores not enough.");
    let mem = evaluate_gate(actual(2, GIB, 40 * GIB, vec![]), &req, false);
    assert_eq!(
        mem.unwrap_err(),
        InstallError::HardwareInsufficient(HardwareMetric::Memory)
    );
    let disk = evaluate_gate(actual(2, 4 * GIB, GIB, vec![]), &req, false);
    assert_eq!(
        disk.unwrap_err(),
        InstallError::HardwareInsufficient(HardwareMetric::Storage)
    );
    let ports = evaluate_gate(actual(2, 4 * GIB, 40 * GIB, vec![8811]), &req, false);
    let e = ports.unwrap_err();
    assert_eq!(e, InstallError::HardwareInsufficient(HardwareMetric::Ports));
    assert_eq!(e.message(), "Some ports are not available.");
}

#[test]
fn gate_force_never_fails() {
    let req = required_requirement();
    let r = evaluate_gate(actual(0, 0, 0, vec![8811]), &req, true);
    let g = r.unwrap();
    assert!(!g.hardware_ok);
    assert_eq!(g.unavailable_ports, vec![8811]);
}

#[test]
fn gate_passes_when_everything_meets_the_floor() {
    let req = required_requirement();
    let r = evaluate_gate(actual(2, 4 * GIB, 40 * GIB, vec![]), &req, false);
    let g = r.unwrap();
    assert!(g.hardware_ok);
    assert!(g.unavailable_ports.is_empty());
}

#[test]
fn port_filter_keeps_bound_ports() {
    // a listener pre-bound on 8811 makes the probe fail for it
    let u = unavailable_ports(&vec![8811], &vec![false]);
    assert_eq!(u, vec![8811]);
    let free = unavailable_ports(&vec![8811], &vec![true]);
    assert!(free.is_empty());
    let mixed = unavailable_ports(&vec![80, 8800, 8811], &vec![true, false, false]);
    assert_eq!(mixed, vec![8800, 8811]);
}

#[test]
fn runtime_check_outcomes() {
    assert!(evaluate_runtime_check(Some(true), Some(true)).is_ok());
    assert_eq!(
        evaluate_runtime_check(Some(false), Some(true)).unwrap_err(),
        InstallError::RuntimeUnavailable
    );
    assert_eq!(
        evaluate_runtime_check(None, Some(true)).unwrap_err(),
        InstallError::RuntimeUnavailable
    );
    assert_eq!(
        evaluate_runtime_check(Some(true), Some(false)).unwrap_err(),
        InstallError::ComposeToolMissing
    );
    assert_eq!(
        evaluate_runtime_check(Some(true), None).unwrap_err(),
        InstallError::ComposeToolMissing
    );
}

#[test]
fn step_outcome_reads_exits() {
    assert!(step_outcome(Some(true), "failed to start tower containers").is_ok());
    assert_eq!(
        step_outcome(Some(false), "failed to start tower containers").unwrap_err(),
        InstallError::ExternalStepFailed("failed to start tower containers".to_owned())
    );
    assert_eq!(
        step_outcome(None, "failed to start tower containers").unwrap_err(),
        InstallError::SpawnFailed("failed to start tower containers".to_owned())
    );
}

#[test]
fn shutdown_is_idempotent_for_the_caller() {
    // the compose tool succeeds on an already-stopped project; two downs
    // in a row both read as success
    assert_eq!(shutdown_line(), "docker-compose -p tower down");
    let first = step_outcome(Some(true), "failed to shut down tower containers");
    let second = step_outcome(Some(true), "failed to shut down tower containers");
    assert!(first.is_ok());
    assert!(second.is_ok());
}

#[test]
fn first_missing_short_circuits() {
    assert_eq!(first_missing(&vec![true, true, false, true]), Some(2));
    assert_eq!(first_missing(&vec![false, true, true, true]), Some(0));
    assert_eq!(first_missing(&vec![true, true, true, true]), None);
    assert_eq!(first_missing(&vec![]), None);
}

#[test]
fn image_list_and_inspect_lines() {
    let images = image_list();
    assert_eq!(
        images,
        vec![
            "tower:0.2.3",
            "prismagraphql/prisma:1.34",
            "postgres:10.3",
            "openresty/openresty:alpine",
        ]
    );
    assert_eq!(
        inspect_image_line("postgres:10.3"),
        "docker inspect --type=image postgres:10.3"
    );
}

#[test]
fn relative_tar_path_resolves_against_cwd() {
    assert_eq!(resolve_path("/home/user", "./dist"), "/home/user/dist");
    assert_eq!(resolve_path("/home/user", "dist"), "/home/user/dist");
    assert_eq!(resolve_path("/home/user", "/opt/dist"), "/opt/dist");
    assert_eq!(
        load_images_line(resolve_path("/home/user", "./dist").as_str()),
        "docker load --input /home/user/dist"
    );
}

#[test]
fn mode_selection_prefers_source() {
    match select_mode(Some("/src".to_owned()), Some("/tar".to_owned())) {
        DeploymentMode::FromSource(d) => assert_eq!(d, "/src"),
        _ => panic!("expected the source mode"),
    }
    match select_mode(None, Some("/tar".to_owned())) {
        DeploymentMode::FromArchive(t) => assert_eq!(t, "/tar"),
        _ => panic!("expected the archive mode"),
    }
    assert!(matches!(
        select_mode(None, None),
        DeploymentMode::FromPublishedImage
    ));
}

#[test]
fn from_source_plan_lines() {
    let plan = plan_from_source("/src/tower", false);
    assert_eq!(plan.len(), 3);
    assert_eq!(
        plan[0].line,
        "docker-compose -p tower -f /src/tower/packages/server/docker-compose.yml up -d"
    );
    assert_eq!(plan[0].failure_message, "failed to start tower containers");
    assert_eq!(
        plan[1].line,
        "cd /src/tower && yarn && yarn lerna run prepublish"
    );
    assert_eq!(
        plan[2].line,
        "cd /src/tower/packages/server && yarn prisma deploy && node /src/tower/packages/server/scripts/setup.js"
    );
    assert_eq!(plan[2].env.len(), 1);
    assert_eq!(plan[2].env[0].name, "PRISMA_PORT");
    assert_eq!(plan[2].env[0].value, "8811");
}

#[test]
fn force_includes_the_reset_substep() {
    let with_force = plan_from_source("/src/tower", true);
    assert_eq!(
        with_force[2].line,
        "cd /src/tower/packages/server && yarn prisma deploy && yarn prisma reset -f && node /src/tower/packages/server/scripts/setup.js"
    );
    assert!(with_force[2].line.contains("yarn prisma reset -f"));
    let without = plan_from_source("/src/tower", false);
    assert!(!without[2].line.contains("yarn prisma reset -f"));
}

#[test]
fn migration_failure_stops_before_setup() {
    // the sub-steps of the force-less setup chain: enter, migrate, setup
    let chain = setup_chain("/srv", "/srv/scripts/setup.js", false);
    assert_eq!(chain.len(), 3);
    let mut seq = Sequencer::new(chain.len());
    let mut setup_invocations = 0;
    // the migration tool exits nonzero
    let exits = [true, false, true];
    while let Some(i) = seq.next_step() {
        if i == chain.len() - 1 {
            setup_invocations += 1;
        }
        seq.record(exits[i]);
    }
    assert_eq!(setup_invocations, 0);
    assert!(!seq.succeeded());
}

#[test]
fn sequencer_runs_every_step_on_success() {
    let mut seq = Sequencer::new(3);
    let mut ran = Vec::new();
    while let Some(i) = seq.next_step() {
        ran.push(i);
        seq.record(true);
    }
    assert_eq!(ran, vec![0, 1, 2]);
    assert!(seq.succeeded());
}

#[test]
fn archive_plan_loads_then_starts() {
    let plan = plan_from_archive("/tmp/images.tar");
    assert_eq!(plan.len(), 2);
    assert_eq!(plan[0].line, "docker load --input /tmp/images.tar");
    assert_eq!(plan[0].failure_message, "failed to load docker images");
    assert_eq!(plan[1].line, "docker-compose -p tower -f - up -d");
    assert!(plan[1].stdin_doc.is_some());
}

#[test]
fn published_doc_topology() {
    let doc = published_compose_doc();
    assert_eq!(doc.services.len(), 4);
    assert_eq!(doc.services[0].name, "prisma");
    assert_eq!(doc.services[0].depends_on, vec!["postgres"]);
    assert_eq!(doc.services[1].name, "postgres");
    assert!(doc.services[1].depends_on.is_empty());
    assert_eq!(doc.services[2].name, "openresty");
    assert!(doc.services[2].depends_on.is_empty());
    assert_eq!(doc.services[3].name, "server");
    assert_eq!(doc.services[3].depends_on, vec!["prisma"]);
    assert_eq!(doc.named_volumes, vec!["postgres"]);
}

#[test]
fn published_doc_serialization() {
    let plan = plan_from_image();
    assert_eq!(plan.len(), 1);
    let text = plan[0].stdin_doc.clone().unwrap();
    let expected = "
version: '3'
services:
  prisma:
    image: prismagraphql/prisma:1.34
    restart: always
    depends_on:
      - 'postgres'
    ports:
      - '8811:8811'
    environment:
      PRISMA_CONFIG: |
        port: 8811
        databases:
          default:
            connector: postgres
            host: postgres
            port: 5432
            user: prisma
            password: prisma
            rawAccess: true
  postgres:
    image: postgres:10.3
    restart: always
    environment:
      POSTGRES_USER: prisma
      POSTGRES_PASSWORD: prisma
    volumes:
      - postgres:/var/lib/postgresql/data
  openresty:
    image: openresty/openresty:alpine
    restart: always
    ports:
      - '80:80'
    environment:
      - NGINX_PORT=80
    volumes:
      - ../server/config/nginx:/etc/nginx/conf.d
      - ../ui/build:/www/tower
  server:
    image: tower:0.2.3
    restart: always
    depends_on:
      - 'prisma'
    ports:
      - '8800:8800'
volumes:
  postgres: ~
";
    assert_eq!(text, expected);
}

#[test]
fn decimal_rendering() {
    assert_eq!(decimal_string(0), "0");
    assert_eq!(decimal_string(7), "7");
    assert_eq!(decimal_string(8811), "8811");
    assert_eq!(decimal_string(u64::MAX), "18446744073709551615");
}

#[test]
fn join_with_separator() {
    let parts = vec!["a".to_owned(), "b".to_owned(), "c".to_owned()];
    assert_eq!(join_strings(&parts, " && "), "a && b && c");
    assert_eq!(join_strings(&vec!["solo".to_owned()], " && "), "solo");
    assert_eq!(join_strings(&vec![], " && "), "");
}

#[test]
fn port_lists() {
    assert_eq!(port_list_string(&vec![8811]), "8811");
    assert_eq!(port_list_string(&vec![80, 8800, 8811]), "80, 8800, 8811");
    assert_eq!(port_list_string(&vec![]), "");
}

#[test]
fn report_rows_and_tones() {
    let req = required_requirement();
    let exp = expected_requirement();
    let rows = build_report(&actual(2, 6 * GIB, 100 * GIB, vec![]), &req, &exp);
    assert_eq!(rows.len(), 4);
    assert_eq!(rows[0].label, "cpu cores");
    assert_eq!(rows[0].required, "2");
    assert_eq!(rows[0].expected, "4");
    assert_eq!(rows[0].actual, "2");
    assert_eq!(rows[0].tone, Tone::Borderline);
    assert_eq!(rows[1].label, "memory");
    // the byte-unit rendering picks the adjusted binary unit
    assert_eq!(rows[1].required, "4 GiB");
    assert_eq!(rows[1].expected, "8 GiB");
    assert_eq!(rows[1].actual, "6 GiB");
    assert_eq!(rows[1].tone, Tone::Borderline);
    assert_eq!(rows[2].label, "storage space");
    assert_eq!(rows[2].required, "40 GiB");
    assert_eq!(rows[2].expected, "100 GiB");
    assert_eq!(rows[2].actual, "100 GiB");
    assert_eq!(rows[2].tone, Tone::Passing);
    assert_eq!(rows[3].label, "ports");
    assert_eq!(rows[3].required, "8811");
    assert_eq!(rows[3].expected, "-");
    assert_eq!(rows[3].actual, "Ok");
    assert_eq!(rows[3].tone, Tone::Passing);
}

#[test]
fn report_marks_failures() {
    let req = required_requirement();
    let exp = expected_requirement();
    let rows = build_report(&actual(1, 512 * (1 << 20), 20 * GIB, vec![8811]), &req, &exp);
    assert_eq!(rows[0].tone, Tone::Failing);
    assert_eq!(rows[1].actual, "512 MiB");
    assert_eq!(rows[1].tone, Tone::Failing);
    assert_eq!(rows[2].tone, Tone::Failing);
    assert_eq!(rows[3].actual, "8811");
    assert_eq!(rows[3].tone, Tone::Failing);
}

#[test]
fn path_resolution_failure_message() {
    assert_eq!(
        InstallError::PathResolutionFailed.message(),
        "failed to resolve path"
    );
    assert_eq!(
        InstallError::RuntimeUnavailable.message(),
        "docker is not running"
    );
    assert_eq!(
        InstallError::ComposeToolMissing.message(),
        "docker-compose was not installed"
    );
}

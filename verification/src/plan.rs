//! The deployment plans: for each mode, the ordered external invocations,
//! each with its shell line, environment overrides, optional piped input,
//! and failure message. Conditional sub-steps are an explicit filtered
//! list joined with `&&`, so a failure inside a chain short-circuits the
//! remainder of that shell invocation.

use vstd::prelude::*;
use vstd::string::StringExecFns;
use crate::compose::{compose_doc_text, published_compose_doc, spec_doc_text, spec_published_doc};
use crate::text::{contains_segment, join_strings, lemma_join_contains_part, spec_join};

verus! {

/// How the application stack is provisioned: built from a source tree,
/// loaded from an image archive, or pulled as published images. Exactly
/// one mode is active per deploy invocation.
pub enum DeploymentMode {
    FromSource(String),
    FromArchive(String),
    FromPublishedImage,
}

/// The source directory wins over the archive path; with neither given,
/// the stack deploys from published images.
pub fn select_mode(source_dir: Option<String>, tar_path: Option<String>) -> (m: DeploymentMode)
    ensures
        source_dir matches Some(d) ==> (m matches DeploymentMode::FromSource(s) && s@ == d@),
        source_dir is None ==> (tar_path matches Some(t) ==> (m
            matches DeploymentMode::FromArchive(a) && a@ == t@)),
        source_dir is None && tar_path is None ==> m is FromPublishedImage,
{
    match source_dir {
        Some(d) => DeploymentMode::FromSource(d),
        None => match tar_path {
            Some(t) => DeploymentMode::FromArchive(t),
            None => DeploymentMode::FromPublishedImage,
        },
    }
}

/// One environment override handed to a step's child process tree.
pub struct EnvVar {
    pub name: String,
    pub value: String,
}

/// One external invocation: a shell line, environment overrides, text
/// piped to the child's standard input if any, and the message shown
/// when the step fails.
pub struct Step {
    pub line: String,
    pub env: Vec<EnvVar>,
    pub stdin_doc: Option<String>,
    pub failure_message: String,
}

/// The compose file inside a source tree.
pub open spec fn spec_compose_file_path(source_dir: Seq<char>) -> Seq<char> {
    source_dir + "/packages/server/docker-compose.yml"@
}

/// The server workspace inside a source tree.
pub open spec fn spec_server_dir_path(source_dir: Seq<char>) -> Seq<char> {
    source_dir + "/packages/server"@
}

/// The setup script inside the server workspace.
pub open spec fn spec_setup_script_path(server_dir: Seq<char>) -> Seq<char> {
    server_dir + "/scripts/setup.js"@
}

/// The runtime daemon status probe.
pub open spec fn spec_runtime_probe_line() -> Seq<char> {
    "docker info"@
}

/// The compose tool version probe.
pub open spec fn spec_compose_probe_line() -> Seq<char> {
    "docker-compose version"@
}

/// The compose-up invocation reading a compose file from the source tree.
pub open spec fn spec_compose_up_file_line(file: Seq<char>) -> Seq<char> {
    "docker-compose -p tower -f "@ + file + " up -d"@
}

/// The compose-up invocation reading the compose document from stdin.
pub open spec fn spec_compose_up_stdin_line() -> Seq<char> {
    "docker-compose -p tower -f - up -d"@
}

/// The teardown invocation for the fixed project name.
pub open spec fn spec_shutdown_line() -> Seq<char> {
    "docker-compose -p tower down"@
}

/// The image-archive load invocation.
pub open spec fn spec_load_images_line(tar_path: Seq<char>) -> Seq<char> {
    "docker load --input "@ + tar_path
}

/// The presence probe of one image.
pub open spec fn spec_inspect_image_line(image: Seq<char>) -> Seq<char> {
    "docker inspect --type=image "@ + image
}

/// The build of all source workspaces, run inside the source tree.
pub open spec fn spec_build_line(source_dir: Seq<char>) -> Seq<char> {
    "cd "@ + source_dir + " && yarn && yarn lerna run prepublish"@
}

/// The destructive data reset sub-step, present only under force.
pub open spec fn spec_reset_substep() -> Seq<char> {
    "yarn prisma reset -f"@
}

/// The setup chain inside the server workspace: enter the workspace, run
/// the data-store migration, reset the data only under force, then run
/// the setup script.
pub open spec fn spec_setup_chain(server_dir: Seq<char>, setup_script: Seq<char>, force: bool) -> Seq<
    Seq<char>,
> {
    if force {
        seq![
            "cd "@ + server_dir,
            "yarn prisma deploy"@,
            spec_reset_substep(),
            "node "@ + setup_script,
        ]
    } else {
        seq!["cd "@ + server_dir, "yarn prisma deploy"@, "node "@ + setup_script]
    }
}

/// The sub-step separator: a failed sub-step short-circuits the rest of
/// the shell line.
pub open spec fn spec_and_separator() -> Seq<char> {
    " && "@
}

/// The setup chain joined into one shell line.
pub open spec fn spec_setup_line(server_dir: Seq<char>, setup_script: Seq<char>, force: bool) -> Seq<
    char,
> {
    spec_join(spec_setup_chain(server_dir, setup_script, force), spec_and_separator())
}

/// Under force the composed setup line contains the destructive reset
/// sub-step whole; without force the chain holds exactly the enter,
/// migrate and setup sub-steps, and no sub-step is the reset.
pub proof fn lemma_force_controls_reset(server_dir: Seq<char>, setup_script: Seq<char>, force: bool)
    ensures
        force ==> contains_segment(
            spec_setup_line(server_dir, setup_script, force),
            spec_reset_substep(),
        ),
        !force ==> spec_setup_chain(server_dir, setup_script, force) =~= seq![
            "cd "@ + server_dir,
            "yarn prisma deploy"@,
            "node "@ + setup_script,
        ],
        !force ==> forall|i: int|
            0 <= i < spec_setup_chain(server_dir, setup_script, force).len()
                ==> #[trigger] spec_setup_chain(server_dir, setup_script, force)[i]
                != spec_reset_substep(),
{
    if force {
        let chain = spec_setup_chain(server_dir, setup_script, force);
        assert(chain[2] == spec_reset_substep());
        lemma_join_contains_part(chain, spec_and_separator(), 2);
    } else {
        let chain = spec_setup_chain(server_dir, setup_script, force);
        reveal_strlit("cd ");
        reveal_strlit("yarn prisma deploy");
        reveal_strlit("node ");
        reveal_strlit("yarn prisma reset -f");
        assert forall|i: int| 0 <= i < chain.len() implies #[trigger] chain[i]
            != spec_reset_substep() by {
            if i == 0 {
                assert(chain[0][0] == 'c' && spec_reset_substep()[0] == 'y');
            } else if i == 1 {
                assert(chain[1].len() == 18 && spec_reset_substep().len() == 20);
            } else {
                assert(chain[2][0] == 'n' && spec_reset_substep()[0] == 'y');
            }
        }
    }
}

/// The failure message of the container startup step.
pub open spec fn spec_start_failure() -> Seq<char> {
    "failed to start tower containers"@
}

/// Build the compose-up line for a source-tree compose file.
pub fn compose_up_file_line(file: &str) -> (r: String)
    ensures
        r@ == spec_compose_up_file_line(file@),
{
    let mut r = "docker-compose -p tower -f ".to_owned();
    r.append(file);
    r.append(" up -d");
    r
}

/// Build the shutdown line for the fixed project name.
pub fn shutdown_line() -> (r: String)
    ensures
        r@ == spec_shutdown_line(),
{
    "docker-compose -p tower down".to_owned()
}

/// Build the runtime daemon probe line.
pub fn runtime_probe_line() -> (r: String)
    ensures
        r@ == spec_runtime_probe_line(),
{
    "docker info".to_owned()
}

/// Build the compose tool probe line.
pub fn compose_probe_line() -> (r: String)
    ensures
        r@ == spec_compose_probe_line(),
{
    "docker-compose version".to_owned()
}

/// Build the image-archive load line.
pub fn load_images_line(tar_path: &str) -> (r: String)
    ensures
        r@ == spec_load_images_line(tar_path@),
{
    let mut r = "docker load --input ".to_owned();
    r.append(tar_path);
    r
}

/// Build the presence probe line of one image.
pub fn inspect_image_line(image: &str) -> (r: String)
    ensures
        r@ == spec_inspect_image_line(image@),
{
    let mut r = "docker inspect --type=image ".to_owned();
    r.append(image);
    r
}

/// The images the stack needs: the application server, the migration
/// tool, the data store, and the edge proxy, probed in that order.
pub fn image_list() -> (r: Vec<String>)
    ensures
        r@.len() == 4,
        r@[0]@ == "tower:0.2.3"@,
        r@[1]@ == "prismagraphql/prisma:1.34"@,
        r@[2]@ == "postgres:10.3"@,
        r@[3]@ == "openresty/openresty:alpine"@,
{
    let mut r: Vec<String> = Vec::new();
    r.push("tower:0.2.3".to_owned());
    r.push("prismagraphql/prisma:1.34".to_owned());
    r.push("postgres:10.3".to_owned());
    r.push("openresty/openresty:alpine".to_owned());
    r
}

/// Build the setup chain of one deployment from source.
pub fn setup_chain(server_dir: &str, setup_script: &str, force: bool) -> (r: Vec<String>)
    ensures
        r@.map_values(|s: String| s@) == spec_setup_chain(server_dir@, setup_script@, force),
{
    let mut r: Vec<String> = Vec::new();
    let mut enter = "cd ".to_owned();
    enter.append(server_dir);
    r.push(enter);
    r.push("yarn prisma deploy".to_owned());
    if force {
        r.push("yarn prisma reset -f".to_owned());
    }
    let mut run_setup = "node ".to_owned();
    run_setup.append(setup_script);
    r.push(run_setup);
    proof {
        assert(r@.map_values(|s: String| s@) =~= spec_setup_chain(
            server_dir@,
            setup_script@,
            force,
        ));
    }
    r
}

/// The environment override pinning the migration tool's listening port
/// for the setup chain's child process tree.
pub fn migration_port_env() -> (r: EnvVar)
    ensures
        r.name@ == "PRISMA_PORT"@,
        r.value@ == "8811"@,
{
    EnvVar { name: "PRISMA_PORT".to_owned(), value: "8811".to_owned() }
}

/// The plan of a deployment from source: start the containers with the
/// source tree's compose file, build all workspaces, then run the setup
/// chain inside the server workspace with the migration port pinned.
pub fn plan_from_source(source_dir: &str, force: bool) -> (r: Vec<Step>)
    ensures
        r@.len() == 3,
        r@[0].line@ == spec_compose_up_file_line(spec_compose_file_path(source_dir@)),
        r@[0].env@.len() == 0,
        r@[0].stdin_doc is None,
        r@[0].failure_message@ == spec_start_failure(),
        r@[1].line@ == spec_build_line(source_dir@),
        r@[1].env@.len() == 0,
        r@[1].stdin_doc is None,
        r@[1].failure_message@ == "failed to build tower from source code"@,
        r@[2].line@ == spec_setup_line(
            spec_server_dir_path(source_dir@),
            spec_setup_script_path(spec_server_dir_path(source_dir@)),
            force,
        ),
        r@[2].env@.len() == 1,
        r@[2].env@[0].name@ == "PRISMA_PORT"@,
        r@[2].env@[0].value@ == "8811"@,
        r@[2].stdin_doc is None,
        r@[2].failure_message@ == "failed to run setup script"@,
{
    let mut r: Vec<Step> = Vec::new();
    let mut compose_file = source_dir.to_owned();
    compose_file.append("/packages/server/docker-compose.yml");
    r.push(
        Step {
            line: compose_up_file_line(compose_file.as_str()),
            env: Vec::new(),
            stdin_doc: None,
            failure_message: "failed to start tower containers".to_owned(),
        },
    );
    let mut build = "cd ".to_owned();
    build.append(source_dir);
    build.append(" && yarn && yarn lerna run prepublish");
    r.push(
        Step {
            line: build,
            env: Vec::new(),
            stdin_doc: None,
            failure_message: "failed to build tower from source code".to_owned(),
        },
    );
    let mut server_dir = source_dir.to_owned();
    server_dir.append("/packages/server");
    let mut setup_script = server_dir.clone();
    setup_script.append("/scripts/setup.js");
    let chain = setup_chain(server_dir.as_str(), setup_script.as_str(), force);
    let line = join_strings(&chain, " && ");
    let mut env: Vec<EnvVar> = Vec::new();
    env.push(migration_port_env());
    r.push(
        Step {
            line,
            env,
            stdin_doc: None,
            failure_message: "failed to run setup script".to_owned(),
        },
    );
    r
}

/// The plan of a deployment from published images: one compose-up with
/// the in-memory compose document piped to the tool's standard input.
pub fn plan_from_image() -> (r: Vec<Step>)
    ensures
        r@.len() == 1,
        r@[0].line@ == spec_compose_up_stdin_line(),
        r@[0].env@.len() == 0,
        r@[0].stdin_doc matches Some(d) && d@ == spec_doc_text(spec_published_doc()),
        r@[0].failure_message@ == spec_start_failure(),
{
    let doc = published_compose_doc();
    let text = compose_doc_text(&doc);
    let mut r: Vec<Step> = Vec::new();
    r.push(
        Step {
            line: "docker-compose -p tower -f - up -d".to_owned(),
            env: Vec::new(),
            stdin_doc: Some(text),
            failure_message: "failed to start tower containers".to_owned(),
        },
    );
    r
}

/// The plan of a deployment from an image archive: load the images from
/// the archive, then proceed as from published images.
pub fn plan_from_archive(tar_path: &str) -> (r: Vec<Step>)
    ensures
        r@.len() == 2,
        r@[0].line@ == spec_load_images_line(tar_path@),
        r@[0].env@.len() == 0,
        r@[0].stdin_doc is None,
        r@[0].failure_message@ == "failed to load docker images"@,
        r@[1].line@ == spec_compose_up_stdin_line(),
        r@[1].env@.len() == 0,
        r@[1].stdin_doc matches Some(d) && d@ == spec_doc_text(spec_published_doc()),
        r@[1].failure_message@ == spec_start_failure(),
{
    let mut r: Vec<Step> = Vec::new();
    r.push(
        Step {
            line: load_images_line(tar_path),
            env: Vec::new(),
            stdin_doc: None,
            failure_message: "failed to load docker images".to_owned(),
        },
    );
    let mut rest = plan_from_image();
    let step = rest.remove(0);
    r.push(step);
    r
}

/// The plan of the selected mode.
pub fn plan_for_mode(mode: &DeploymentMode, force: bool) -> (r: Vec<Step>)
    ensures
        mode matches DeploymentMode::FromSource(d) ==> r@.len() == 3 && r@[0].line@
            == spec_compose_up_file_line(spec_compose_file_path(d@)) && r@[1].line@
            == spec_build_line(d@) && r@[2].line@ == spec_setup_line(
            spec_server_dir_path(d@),
            spec_setup_script_path(spec_server_dir_path(d@)),
            force,
        ) && r@[2].env@.len() == 1 && r@[2].env@[0].name@ == "PRISMA_PORT"@ && r@[2].env@[0].value@
            == "8811"@,
        mode matches DeploymentMode::FromArchive(t) ==> r@.len() == 2 && r@[0].line@
            == spec_load_images_line(t@) && r@[1].line@ == spec_compose_up_stdin_line() && (r@[1].stdin_doc
            matches Some(doc) && doc@ == spec_doc_text(spec_published_doc())),
        mode is FromPublishedImage ==> r@.len() == 1 && r@[0].line@ == spec_compose_up_stdin_line()
            && (r@[0].stdin_doc matches Some(doc) && doc@ == spec_doc_text(spec_published_doc())),
{
    match mode {
        DeploymentMode::FromSource(d) => plan_from_source(d.as_str(), force),
        DeploymentMode::FromArchive(t) => plan_from_archive(t.as_str()),
        DeploymentMode::FromPublishedImage => plan_from_image(),
    }
}

} // verus!

//! The compose document used when deploying from published images: the
//! four-service topology held as data (data store, migration tool
//! depending on it, edge proxy, application server depending on the
//! migration tool), serialized at call time and piped to the compose
//! tool's standard input, so no checked-out source tree is needed.

use vstd::prelude::*;
use vstd::string::StringExecFns;
use crate::text::{decimal_string, join_strings, spec_decimal, spec_join};

verus! {

/// One published host-to-container port mapping.
#[derive(Clone, Copy, Debug, PartialEq, Eq, Structural)]
pub struct PortMapping {
    pub host: u16,
    pub container: u16,
}

/// One service of the compose document. `environment` and `volumes` hold
/// the entry lines as written in the document, relative to their block.
pub struct ComposeService {
    pub name: String,
    pub image: String,
    pub restart_always: bool,
    pub depends_on: Vec<String>,
    pub ports: Vec<PortMapping>,
    pub environment: Vec<String>,
    pub volumes: Vec<String>,
}

/// The compose document: services plus the named volumes they mount.
pub struct ComposeDoc {
    pub services: Vec<ComposeService>,
    pub named_volumes: Vec<String>,
}

/// The mathematical model of one service.
#[verifier::ext_equal]
pub ghost struct ServiceModel {
    pub name: Seq<char>,
    pub image: Seq<char>,
    pub restart_always: bool,
    pub depends_on: Seq<Seq<char>>,
    pub ports: Seq<PortMapping>,
    pub environment: Seq<Seq<char>>,
    pub volumes: Seq<Seq<char>>,
}

/// The mathematical model of the document.
#[verifier::ext_equal]
pub ghost struct DocModel {
    pub services: Seq<ServiceModel>,
    pub named_volumes: Seq<Seq<char>>,
}

impl View for ComposeService {
    type V = ServiceModel;

    open spec fn view(&self) -> ServiceModel {
        ServiceModel {
            name: self.name@,
            image: self.image@,
            restart_always: self.restart_always,
            depends_on: self.depends_on@.map_values(|d: String| d@),
            ports: self.ports@,
            environment: self.environment@.map_values(|e: String| e@),
            volumes: self.volumes@.map_values(|v: String| v@),
        }
    }
}

impl View for ComposeDoc {
    type V = DocModel;

    open spec fn view(&self) -> DocModel {
        DocModel {
            services: self.services@.map_values(|s: ComposeService| s@),
            named_volumes: self.named_volumes@.map_values(|v: String| v@),
        }
    }
}

/// An entry line wrapped by the prefix and suffix of its block.
pub open spec fn spec_wrapped(prefix: Seq<char>, v: Seq<char>, suffix: Seq<char>) -> Seq<char> {
    prefix + v + suffix
}

/// A header followed by its entry lines; nothing when there are none.
pub open spec fn spec_block(header: Seq<char>, items: Seq<Seq<char>>) -> Seq<Seq<char>> {
    if items.len() == 0 {
        Seq::empty()
    } else {
        seq![header] + items
    }
}

/// One published port entry line.
pub open spec fn spec_port_line(p: PortMapping) -> Seq<char> {
    "      - '"@ + spec_decimal(p.host as nat) + ":"@ + spec_decimal(p.container as nat) + "'"@
}

/// The lines of one service: name, image, restart policy, then the
/// dependency, port, environment and volume blocks, each only when
/// non-empty.
pub open spec fn spec_service_lines(s: ServiceModel) -> Seq<Seq<char>> {
    seq!["  "@ + s.name + ":"@, "    image: "@ + s.image] + (if s.restart_always {
        seq!["    restart: always"@]
    } else {
        Seq::<Seq<char>>::empty()
    }) + spec_block(
        "    depends_on:"@,
        s.depends_on.map_values(|d: Seq<char>| spec_wrapped("      - '"@, d, "'"@)),
    ) + spec_block("    ports:"@, s.ports.map_values(|p: PortMapping| spec_port_line(p)))
        + spec_block(
        "    environment:"@,
        s.environment.map_values(|e: Seq<char>| spec_wrapped("      "@, e, Seq::empty())),
    ) + spec_block(
        "    volumes:"@,
        s.volumes.map_values(|v: Seq<char>| spec_wrapped("      - "@, v, Seq::empty())),
    )
}

/// The lines of all services, in order.
pub open spec fn spec_services_lines(ss: Seq<ServiceModel>) -> Seq<Seq<char>>
    decreases ss.len(),
{
    if ss.len() == 0 {
        Seq::empty()
    } else {
        spec_services_lines(ss.drop_last()) + spec_service_lines(ss.last())
    }
}

/// The lines of the whole document.
pub open spec fn spec_doc_lines(d: DocModel) -> Seq<Seq<char>> {
    seq!["version: '3'"@, "services:"@] + spec_services_lines(d.services) + spec_block(
        "volumes:"@,
        d.named_volumes.map_values(|v: Seq<char>| spec_wrapped("  "@, v, ": ~"@)),
    )
}

/// The document's text: its lines joined by newlines, with a newline
/// before and after.
pub open spec fn spec_doc_text(d: DocModel) -> Seq<char> {
    "\n"@ + spec_join(spec_doc_lines(d), "\n"@) + "\n"@
}

/// Append a block of wrapped entry lines under a header, or nothing when
/// there are no entries.
fn push_wrapped_block(
    out: &mut Vec<String>,
    header: &str,
    prefix: &str,
    suffix: &str,
    items: &Vec<String>,
)
    ensures
        final(out)@.map_values(|s: String| s@) == old(out)@.map_values(|s: String| s@)
            + spec_block(
            header@,
            items@.map_values(|x: String| spec_wrapped(prefix@, x@, suffix@)),
        ),
{
    let ghost base = out@.map_values(|s: String| s@);
    if items.len() == 0 {
        proof {
            assert(base =~= base + spec_block(
                header@,
                items@.map_values(|x: String| spec_wrapped(prefix@, x@, suffix@)),
            ));
        }
        return ;
    }
    out.push(header.to_owned());
    let mut i: usize = 0;
    while i < items.len()
        invariant
            0 <= i <= items@.len(),
            items@.len() > 0,
            out@.len() == base.len() + 1 + i,
            forall|j: int| 0 <= j < base.len() ==> #[trigger] out@[j]@ == base[j],
            out@[base.len() as int]@ == header@,
            forall|k: int|
                base.len() + 1 <= k < out@.len() ==> #[trigger] out@[k]@ == spec_wrapped(
                    prefix@,
                    items@[k - base.len() - 1]@,
                    suffix@,
                ),
        decreases items@.len() - i,
    {
        let mut line = prefix.to_owned();
        line.append(items[i].as_str());
        line.append(suffix);
        out.push(line);
        i = i + 1;
    }
    proof {
        assert(out@.map_values(|s: String| s@) =~= base + spec_block(
            header@,
            items@.map_values(|x: String| spec_wrapped(prefix@, x@, suffix@)),
        ));
    }
}

/// Append the port block of one service.
fn push_ports_block(out: &mut Vec<String>, ports: &Vec<PortMapping>)
    ensures
        final(out)@.map_values(|s: String| s@) == old(out)@.map_values(|s: String| s@)
            + spec_block("    ports:"@, ports@.map_values(|p: PortMapping| spec_port_line(p))),
{
    let ghost base = out@.map_values(|s: String| s@);
    if ports.len() == 0 {
        proof {
            assert(base =~= base + spec_block(
                "    ports:"@,
                ports@.map_values(|p: PortMapping| spec_port_line(p)),
            ));
        }
        return ;
    }
    out.push("    ports:".to_owned());
    let mut i: usize = 0;
    while i < ports.len()
        invariant
            0 <= i <= ports@.len(),
            ports@.len() > 0,
            out@.len() == base.len() + 1 + i,
            forall|j: int| 0 <= j < base.len() ==> #[trigger] out@[j]@ == base[j],
            out@[base.len() as int]@ == "    ports:"@,
            forall|k: int|
                base.len() + 1 <= k < out@.len() ==> #[trigger] out@[k]@ == spec_port_line(
                    ports@[k - base.len() - 1],
                ),
        decreases ports@.len() - i,
    {
        let mut line = "      - '".to_owned();
        line.append(decimal_string(ports[i].host as u64).as_str());
        line.append(":");
        line.append(decimal_string(ports[i].container as u64).as_str());
        line.append("'");
        out.push(line);
        i = i + 1;
    }
    proof {
        assert(out@.map_values(|s: String| s@) =~= base + spec_block(
            "    ports:"@,
            ports@.map_values(|p: PortMapping| spec_port_line(p)),
        ));
    }
}

/// Append the lines of one service.
fn push_service_lines(out: &mut Vec<String>, s: &ComposeService)
    ensures
        final(out)@.map_values(|x: String| x@) == old(out)@.map_values(|x: String| x@)
            + spec_service_lines(s@),
{
    let ghost base = out@.map_values(|x: String| x@);
    let mut head = "  ".to_owned();
    head.append(s.name.as_str());
    head.append(":");
    out.push(head);
    let mut image_line = "    image: ".to_owned();
    image_line.append(s.image.as_str());
    out.push(image_line);
    if s.restart_always {
        out.push("    restart: always".to_owned());
    }
    let ghost fixed = base + seq!["  "@ + s.name@ + ":"@, "    image: "@ + s.image@]
        + (if s.restart_always {
        seq!["    restart: always"@]
    } else {
        Seq::<Seq<char>>::empty()
    });
    proof {
        assert(out@.map_values(|x: String| x@) =~= fixed);
    }
    push_wrapped_block(out, "    depends_on:", "      - '", "'", &s.depends_on);
    push_ports_block(out, &s.ports);
    push_wrapped_block(out, "    environment:", "      ", "", &s.environment);
    push_wrapped_block(out, "    volumes:", "      - ", "", &s.volumes);
    proof {
        reveal_strlit("");
        assert(s@.depends_on.map_values(|d: Seq<char>| spec_wrapped("      - '"@, d, "'"@))
            =~~= s.depends_on@.map_values(|x: String| spec_wrapped("      - '"@, x@, "'"@)));
        assert(s@.environment.map_values(|e: Seq<char>| spec_wrapped("      "@, e, Seq::empty()))
            =~~= s.environment@.map_values(|x: String| spec_wrapped("      "@, x@, ""@)));
        assert(s@.volumes.map_values(|v: Seq<char>| spec_wrapped("      - "@, v, Seq::empty()))
            =~~= s.volumes@.map_values(|x: String| spec_wrapped("      - "@, x@, ""@)));
        assert(out@.map_values(|x: String| x@) =~~= base + spec_service_lines(s@));
    }
}

/// The document's lines, in order.
pub fn compose_doc_lines(d: &ComposeDoc) -> (r: Vec<String>)
    ensures
        r@.map_values(|x: String| x@) == spec_doc_lines(d@),
{
    let mut out: Vec<String> = Vec::new();
    out.push("version: '3'".to_owned());
    out.push("services:".to_owned());
    proof {
        assert(out@.map_values(|x: String| x@) =~= seq!["version: '3'"@, "services:"@]);
    }
    let mut i: usize = 0;
    while i < d.services.len()
        invariant
            0 <= i <= d.services@.len(),
            out@.map_values(|x: String| x@) == seq!["version: '3'"@, "services:"@]
                + spec_services_lines(d@.services.take(i as int)),
        decreases d.services@.len() - i,
    {
        push_service_lines(&mut out, &d.services[i]);
        proof {
            let t = d@.services.take(i + 1);
            assert(t.drop_last() =~= d@.services.take(i as int));
            assert(t.last() == d@.services[i as int]);
            assert(d@.services[i as int] == d.services@[i as int]@);
            assert(out@.map_values(|x: String| x@) =~= seq!["version: '3'"@, "services:"@]
                + spec_services_lines(t));
        }
        i = i + 1;
    }
    proof {
        assert(d@.services.take(d.services@.len() as int) =~= d@.services);
    }
    push_wrapped_block(&mut out, "volumes:", "  ", ": ~", &d.named_volumes);
    proof {
        assert(d@.named_volumes.map_values(|v: Seq<char>| spec_wrapped("  "@, v, ": ~"@))
            =~= d.named_volumes@.map_values(|x: String| spec_wrapped("  "@, x@, ": ~"@)));
        assert(out@.map_values(|x: String| x@) =~= spec_doc_lines(d@));
    }
    out
}

/// Serialize the document: lines joined by newlines, with a newline
/// before and after.
pub fn compose_doc_text(d: &ComposeDoc) -> (r: String)
    ensures
        r@ == spec_doc_text(d@),
{
    let lines = compose_doc_lines(d);
    let body = join_strings(&lines, "\n");
    let mut r = "\n".to_owned();
    r.append(body.as_str());
    r.append("\n");
    r
}

/// The model of the migration tool service: it depends on the data
/// store, publishes its listening port, and carries its configuration.
pub open spec fn spec_prisma_service() -> ServiceModel {
    ServiceModel {
        name: "prisma"@,
        image: "prismagraphql/prisma:1.34"@,
        restart_always: true,
        depends_on: seq!["postgres"@],
        ports: seq![PortMapping { host: 8811, container: 8811 }],
        environment: seq![
            "PRISMA_CONFIG: |"@,
            "  port: 8811"@,
            "  databases:"@,
            "    default:"@,
            "      connector: postgres"@,
            "      host: postgres"@,
            "      port: 5432"@,
            "      user: prisma"@,
            "      password: prisma"@,
            "      rawAccess: true"@,
        ],
        volumes: Seq::empty(),
    }
}

/// The model of the data store service.
pub open spec fn spec_postgres_service() -> ServiceModel {
    ServiceModel {
        name: "postgres"@,
        image: "postgres:10.3"@,
        restart_always: true,
        depends_on: Seq::empty(),
        ports: Seq::empty(),
        environment: seq!["POSTGRES_USER: prisma"@, "POSTGRES_PASSWORD: prisma"@],
        volumes: seq!["postgres:/var/lib/postgresql/data"@],
    }
}

/// The model of the edge proxy service, independent of the others.
pub open spec fn spec_openresty_service() -> ServiceModel {
    ServiceModel {
        name: "openresty"@,
        image: "openresty/openresty:alpine"@,
        restart_always: true,
        depends_on: Seq::empty(),
        ports: seq![PortMapping { host: 80, container: 80 }],
        environment: seq!["- NGINX_PORT=80"@],
        volumes: seq![
            "../server/config/nginx:/etc/nginx/conf.d"@,
            "../ui/build:/www/tower"@,
        ],
    }
}

/// The model of the application server service: it depends on the
/// migration tool.
pub open spec fn spec_server_service() -> ServiceModel {
    ServiceModel {
        name: "server"@,
        image: "tower:0.2.3"@,
        restart_always: true,
        depends_on: seq!["prisma"@],
        ports: seq![PortMapping { host: 8800, container: 8800 }],
        environment: Seq::empty(),
        volumes: Seq::empty(),
    }
}

/// The published-image topology: data store, migration tool depending on
/// it, edge proxy, and the application server depending on the migration
/// tool, with one named volume for the data store.
pub open spec fn spec_published_doc() -> DocModel {
    DocModel {
        services: seq![
            spec_prisma_service(),
            spec_postgres_service(),
            spec_openresty_service(),
            spec_server_service(),
        ],
        named_volumes: seq!["postgres"@],
    }
}

/// Build the migration tool service.
fn prisma_service() -> (s: ComposeService)
    ensures
        s@ == spec_prisma_service(),
{
    let mut depends_on: Vec<String> = Vec::new();
    depends_on.push("postgres".to_owned());
    let mut ports: Vec<PortMapping> = Vec::new();
    ports.push(PortMapping { host: 8811, container: 8811 });
    let mut environment: Vec<String> = Vec::new();
    environment.push("PRISMA_CONFIG: |".to_owned());
    environment.push("  port: 8811".to_owned());
    environment.push("  databases:".to_owned());
    environment.push("    default:".to_owned());
    environment.push("      connector: postgres".to_owned());
    environment.push("      host: postgres".to_owned());
    environment.push("      port: 5432".to_owned());
    environment.push("      user: prisma".to_owned());
    environment.push("      password: prisma".to_owned());
    environment.push("      rawAccess: true".to_owned());
    let s = ComposeService {
        name: "prisma".to_owned(),
        image: "prismagraphql/prisma:1.34".to_owned(),
        restart_always: true,
        depends_on,
        ports,
        environment,
        volumes: Vec::new(),
    };
    proof {
        assert(s@ =~~= spec_prisma_service());
    }
    s
}

/// Build the data store service.
fn postgres_service() -> (s: ComposeService)
    ensures
        s@ == spec_postgres_service(),
{
    let mut environment: Vec<String> = Vec::new();
    environment.push("POSTGRES_USER: prisma".to_owned());
    environment.push("POSTGRES_PASSWORD: prisma".to_owned());
    let mut volumes: Vec<String> = Vec::new();
    volumes.push("postgres:/var/lib/postgresql/data".to_owned());
    let s = ComposeService {
        name: "postgres".to_owned(),
        image: "postgres:10.3".to_owned(),
        restart_always: true,
        depends_on: Vec::new(),
        ports: Vec::new(),
        environment,
        volumes,
    };
    proof {
        assert(s@ =~~= spec_postgres_service());
    }
    s
}

/// Build the edge proxy service.
fn openresty_service() -> (s: ComposeService)
    ensures
        s@ == spec_openresty_service(),
{
    let mut ports: Vec<PortMapping> = Vec::new();
    ports.push(PortMapping { host: 80, container: 80 });
    let mut environment: Vec<String> = Vec::new();
    environment.push("- NGINX_PORT=80".to_owned());
    let mut volumes: Vec<String> = Vec::new();
    volumes.push("../server/config/nginx:/etc/nginx/conf.d".to_owned());
    volumes.push("../ui/build:/www/tower".to_owned());
    let s = ComposeService {
        name: "openresty".to_owned(),
        image: "openresty/openresty:alpine".to_owned(),
        restart_always: true,
        depends_on: Vec::new(),
        ports,
        environment,
        volumes,
    };
    proof {
        assert(s@ =~~= spec_openresty_service());
    }
    s
}

/// Build the application server service.
fn server_service() -> (s: ComposeService)
    ensures
        s@ == spec_server_service(),
{
    let mut depends_on: Vec<String> = Vec::new();
    depends_on.push("prisma".to_owned());
    let mut ports: Vec<PortMapping> = Vec::new();
    ports.push(PortMapping { host: 8800, container: 8800 });
    let s = ComposeService {
        name: "server".to_owned(),
        image: "tower:0.2.3".to_owned(),
        restart_always: true,
        depends_on,
        ports,
        environment: Vec::new(),
        volumes: Vec::new(),
    };
    proof {
        assert(s@ =~~= spec_server_service());
    }
    s
}

/// Build the published-image compose document.
pub fn published_compose_doc() -> (d: ComposeDoc)
    ensures
        d@ == spec_published_doc(),
{
    let mut services: Vec<ComposeService> = Vec::new();
    services.push(prisma_service());
    services.push(postgres_service());
    services.push(openresty_service());
    services.push(server_service());
    let mut named_volumes: Vec<String> = Vec::new();
    named_volumes.push("postgres".to_owned());
    let d = ComposeDoc { services, named_volumes };
    proof {
        assert(d@ =~~= spec_published_doc());
    }
    d
}

} // verus!

//! The container images that are offered for the supported devices.

use vstd::prelude::*;
use vstd::string::*;
use crate::text::texts;

verus! {

/// One container image of the list.
#[derive(Debug, PartialEq, Eq)]
pub struct ContainerInfo {
    pub name: String,
    pub tag: String,
    pub category: String,
    pub description: String,
    pub size: String,
    pub supported_devices: Vec<String>,
    pub is_installed: bool,
}

/// What a `ContainerInfo` says, as plain values.
pub struct ContainerInfoView {
    pub name: Seq<char>,
    pub tag: Seq<char>,
    pub category: Seq<char>,
    pub description: Seq<char>,
    pub size: Seq<char>,
    pub supported_devices: Seq<Seq<char>>,
    pub is_installed: bool,
}

impl View for ContainerInfo {
    type V = ContainerInfoView;

    open spec fn view(&self) -> ContainerInfoView {
        ContainerInfoView {
            name: self.name@,
            tag: self.tag@,
            category: self.category@,
            description: self.description@,
            size: self.size@,
            supported_devices: texts(self.supported_devices@),
            is_installed: self.is_installed,
        }
    }
}

/// What a list of container images says, as plain values.
pub open spec fn container_views(items: Seq<ContainerInfo>) -> Seq<ContainerInfoView> {
    items.map_values(|c: ContainerInfo| c@)
}

/// The three modules of the Orin family, as the images list them.
pub open spec fn orin_modules() -> Seq<Seq<char>> {
    seq!["AGX Orin"@, "Orin NX"@, "Orin Nano"@]
}

/// The images on offer. None of them counts as installed.
pub open spec fn available_containers() -> Seq<ContainerInfoView> {
    seq![
        ContainerInfoView {
            name: "l4t-pytorch"@,
            tag: "r36.2.0"@,
            category: "ML"@,
            description: "PyTorch with CUDA support for L4T"@,
            size: "2.1 GB"@,
            supported_devices: orin_modules(),
            is_installed: false,
        },
        ContainerInfoView {
            name: "text-generation-webui"@,
            tag: "latest"@,
            category: "LLM"@,
            description: "Web UI for running Large Language Models"@,
            size: "8.5 GB"@,
            supported_devices: seq!["AGX Orin"@, "Orin NX"@],
            is_installed: false,
        },
        ContainerInfoView {
            name: "nanollm"@,
            tag: "latest"@,
            category: "LLM"@,
            description: "Optimized LLM inference for Jetson"@,
            size: "3.2 GB"@,
            supported_devices: orin_modules(),
            is_installed: false,
        },
    ]
}

/// The names of the Orin modules, of which the last is left out where `all` is false.
fn orin_module_names(all: bool) -> (names: Vec<String>)
    ensures
        texts(names@) == if all {
            orin_modules()
        } else {
            seq!["AGX Orin"@, "Orin NX"@]
        },
{
    let mut names: Vec<String> = Vec::new();
    names.push("AGX Orin".to_owned());
    names.push("Orin NX".to_owned());
    if all {
        names.push("Orin Nano".to_owned());
    }
    proof {
        if all {
            assert(texts(names@) =~= orin_modules());
        } else {
            assert(texts(names@) =~= seq!["AGX Orin"@, "Orin NX"@]);
        }
    }
    names
}

/// The images on offer.
pub fn list_available_containers() -> (containers: Vec<ContainerInfo>)
    ensures
        container_views(containers@) == available_containers(),
{
    let mut containers: Vec<ContainerInfo> = Vec::new();
    containers.push(
        ContainerInfo {
            name: "l4t-pytorch".to_owned(),
            tag: "r36.2.0".to_owned(),
            category: "ML".to_owned(),
            description: "PyTorch with CUDA support for L4T".to_owned(),
            size: "2.1 GB".to_owned(),
            supported_devices: orin_module_names(true),
            is_installed: false,
        },
    );
    containers.push(
        ContainerInfo {
            name: "text-generation-webui".to_owned(),
            tag: "latest".to_owned(),
            category: "LLM".to_owned(),
            description: "Web UI for running Large Language Models".to_owned(),
            size: "8.5 GB".to_owned(),
            supported_devices: orin_module_names(false),
            is_installed: false,
        },
    );
    containers.push(
        ContainerInfo {
            name: "nanollm".to_owned(),
            tag: "latest".to_owned(),
            category: "LLM".to_owned(),
            description: "Optimized LLM inference for Jetson".to_owned(),
            size: "3.2 GB".to_owned(),
            supported_devices: orin_module_names(true),
            is_installed: false,
        },
    );
    proof {
        assert(container_views(containers@) =~= available_containers());
    }
    containers
}

/// The reference of an image: its name, a colon, and its tag.
pub open spec fn container_reference_of(name: Seq<char>, tag: Seq<char>) -> Seq<char> {
    name + ":"@ + tag
}

/// The reference under which the image `name` with the tag `tag` is pulled.
pub fn container_reference(name: &str, tag: &str) -> (r: String)
    ensures
        r@ == container_reference_of(name@, tag@),
{
    let mut out = name.to_owned();
    out.append(":");
    out.append(tag);
    out
}

/// What pulling an image comes to, once the pulling program has ended: its
/// standard output where it reported success, its standard error otherwise.
pub fn pull_container(success: bool, output: String, errors: String) -> (r: Result<String, String>)
    ensures
        r == if success {
            Ok::<String, String>(output)
        } else {
            Err::<String, String>(errors)
        },
{
    if success {
        Ok(output)
    } else {
        Err(errors)
    }
}

} // verus!

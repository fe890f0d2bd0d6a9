//! The layout of the red-team framework's directory tree: where each kind of
//! record is kept, relative to the red-team directory.

use vstd::prelude::*;
use crate::text::{chars_of, push_str, string_from};

verus! {

broadcast use vstd::string::group_string_axioms;

/// `base` joined with the relative path `part`, as `Path::join` does on Unix:
/// a `/` goes between them unless `base` is empty or ends with one.
pub open spec fn path_join(base: Seq<char>, part: Seq<char>) -> Seq<char> {
    if base.len() > 0 && base.last() != '/' {
        base + "/"@ + part
    } else {
        base + part
    }
}

/// Joins a relative path onto a base path (see `path_join`).
pub fn join_path(base: &str, part: &str) -> (r: String)
    ensures
        r@ == path_join(base@, part@),
{
    let b = chars_of(base);
    let mut r = string_from(base);
    if b.len() > 0 && b[b.len() - 1] != '/' {
        push_str(&mut r, "/");
    }
    push_str(&mut r, part);
    r
}

/// The directories and files of the framework.
#[derive(Debug, Clone)]
pub struct FrameworkPaths {
    pub red_team_dir: String,
    pub scenarios_dir: String,
    pub intel_dir: String,
    pub recon_dir: String,
    pub detection_dir: String,
    pub campaigns_dir: String,
    pub drills_dir: String,
    pub mitre_dir: String,
    pub reports_dir: String,
    pub threat_actors_file: String,
    pub targeting_model_file: String,
    pub attack_surface_file: String,
    pub detections_file: String,
    pub drill_framework_file: String,
    pub framework_file: String,
    pub navigator_layer_file: String,
    pub index_file: String,
}

/// `p` lays out the framework under the red-team directory `root`.
pub open spec fn laid_out_under(p: FrameworkPaths, root: Seq<char>) -> bool {
    let intel = path_join(root, "intelligence-led"@);
    let recon = path_join(intel, "reconnaissance"@);
    let detection = path_join(intel, "detection-mapping"@);
    let drills = path_join(root, "incident-response"@);
    let mitre = path_join(root, "mitre-attack"@);
    &&& p.red_team_dir@ == root
    &&& p.scenarios_dir@ == path_join(root, "scenarios"@)
    &&& p.intel_dir@ == intel
    &&& p.recon_dir@ == recon
    &&& p.detection_dir@ == detection
    &&& p.campaigns_dir@ == path_join(intel, "campaigns"@)
    &&& p.drills_dir@ == drills
    &&& p.mitre_dir@ == mitre
    &&& p.reports_dir@ == path_join(root, "reports"@)
    &&& p.threat_actors_file@ == path_join(intel, "threat-actors.json"@)
    &&& p.targeting_model_file@ == path_join(intel, "targeting-model.json"@)
    &&& p.attack_surface_file@ == path_join(recon, "attack-surface.json"@)
    &&& p.detections_file@ == path_join(detection, "detections.json"@)
    &&& p.drill_framework_file@ == path_join(drills, "drill-framework.json"@)
    &&& p.framework_file@ == path_join(mitre, "framework.json"@)
    &&& p.navigator_layer_file@ == path_join(mitre, "navigator-layer.json"@)
    &&& p.index_file@ == path_join(mitre, "index.json"@)
}

impl FrameworkPaths {
    /// The layout of the framework under the red-team directory `root`.
    pub fn under(root: &str) -> (r: Self)
        ensures
            laid_out_under(r, root@),
    {
        let intel_dir = join_path(root, "intelligence-led");
        let recon_dir = join_path(intel_dir.as_str(), "reconnaissance");
        let detection_dir = join_path(intel_dir.as_str(), "detection-mapping");
        let campaigns_dir = join_path(intel_dir.as_str(), "campaigns");
        let drills_dir = join_path(root, "incident-response");
        let mitre_dir = join_path(root, "mitre-attack");
        FrameworkPaths {
            scenarios_dir: join_path(root, "scenarios"),
            reports_dir: join_path(root, "reports"),
            threat_actors_file: join_path(intel_dir.as_str(), "threat-actors.json"),
            targeting_model_file: join_path(intel_dir.as_str(), "targeting-model.json"),
            attack_surface_file: join_path(recon_dir.as_str(), "attack-surface.json"),
            detections_file: join_path(detection_dir.as_str(), "detections.json"),
            drill_framework_file: join_path(drills_dir.as_str(), "drill-framework.json"),
            framework_file: join_path(mitre_dir.as_str(), "framework.json"),
            navigator_layer_file: join_path(mitre_dir.as_str(), "navigator-layer.json"),
            index_file: join_path(mitre_dir.as_str(), "index.json"),
            red_team_dir: string_from(root),
            intel_dir,
            recon_dir,
            detection_dir,
            campaigns_dir,
            drills_dir,
            mitre_dir,
        }
    }
}

} // verus!

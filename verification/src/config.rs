//! Configuration of the client: the default namespace, and how it is inferred
//! from what the environment and the host report.

use vstd::prelude::*;

use crate::host::HostError;

verus! {

/// The namespace used when nothing else names one.
pub open spec fn fallback_namespace() -> Seq<char> {
    seq!['d', 'e', 'f', 'a', 'u', 'l', 't']
}

/// The namespace that inference picks: the first non-empty of the
/// `KUBE_NAMESPACE` variable, the `POD_NAMESPACE` variable and the host's
/// answer, else `default`.
pub open spec fn inferred_namespace(
    kube_namespace: Option<Seq<char>>,
    pod_namespace: Option<Seq<char>>,
    host_namespace: Option<Seq<char>>,
) -> Seq<char> {
    if kube_namespace matches Some(ns) && ns.len() > 0 {
        kube_namespace->0
    } else if pod_namespace matches Some(ns) && ns.len() > 0 {
        pod_namespace->0
    } else if host_namespace matches Some(ns) && ns.len() > 0 {
        host_namespace->0
    } else {
        fallback_namespace()
    }
}

/// The view of an optional string.
pub open spec fn opt_view(s: Option<String>) -> Option<Seq<char>> {
    match s {
        Some(s) => Some(s@),
        None => None,
    }
}

/// The namespace that the host reported, if the host answered.
pub open spec fn host_answer_view(answer: Result<String, HostError>) -> Option<Seq<char>> {
    match answer {
        Ok(s) => Some(s@),
        Err(_) => None,
    }
}

/// Configuration object for accessing a Kubernetes cluster under WASI.
#[derive(Debug, Clone)]
#[non_exhaustive]
pub struct Config {
    /// The configured default namespace
    pub default_namespace: String,
}

impl Config {
    /// Construct a new config with a given default namespace.
    pub fn new(default_namespace: String) -> (config: Self)
        ensures
            config.default_namespace == default_namespace,
    {
        Self { default_namespace }
    }

    /// The configuration that the environment alone determines: the value of
    /// `KUBE_NAMESPACE` when it is set and non-empty, else that of
    /// `POD_NAMESPACE` when it is set and non-empty, else `None` (then the
    /// host is asked, see [`Config::from_host_namespace`]).
    pub fn from_env_namespaces(
        kube_namespace: Option<String>,
        pod_namespace: Option<String>,
    ) -> (config: Option<Self>)
        ensures
            config is Some <==> (kube_namespace matches Some(ns) && ns@.len() > 0) || (
            pod_namespace matches Some(ns) && ns@.len() > 0),
            config matches Some(c) ==> c.default_namespace@ == inferred_namespace(
                opt_view(kube_namespace),
                opt_view(pod_namespace),
                None,
            ),
            kube_namespace is Some && kube_namespace->0@.len() > 0 ==> config == Some(
                Config { default_namespace: kube_namespace->0 },
            ),
            !(kube_namespace is Some && kube_namespace->0@.len() > 0) && pod_namespace is Some
                && pod_namespace->0@.len() > 0 ==> config == Some(
                Config { default_namespace: pod_namespace->0 },
            ),
    {
        if let Some(ns) = kube_namespace {
            if ns.as_str().is_empty() == false {
                return Some(Self { default_namespace: ns });
            }
        }
        if let Some(ns) = pod_namespace {
            if ns.as_str().is_empty() == false {
                return Some(Self { default_namespace: ns });
            }
        }
        None
    }

    /// The configuration once neither variable named a namespace: the host's
    /// answer when it is a non-empty namespace, else `default`.
    pub fn from_host_namespace(answer: Result<String, HostError>) -> (config: Self)
        ensures
            config.default_namespace@ == inferred_namespace(None, None, host_answer_view(answer)),
            answer is Ok && answer->Ok_0@.len() > 0 ==> config.default_namespace == answer->Ok_0,
            !(answer is Ok && answer->Ok_0@.len() > 0) ==> config.default_namespace@ == seq![
                'd',
                'e',
                'f',
                'a',
                'u',
                'l',
                't',
            ],
    {
        if let Ok(ns) = answer {
            if ns.as_str().is_empty() == false {
                return Self { default_namespace: ns };
            }
        }
        let ns = "default".to_owned();
        proof {
            reveal_strlit("default");
        }
        Self { default_namespace: ns }
    }
}

/// Inference never yields an empty namespace.
pub proof fn lemma_inferred_namespace_not_empty(
    kube_namespace: Option<Seq<char>>,
    pod_namespace: Option<Seq<char>>,
    host_namespace: Option<Seq<char>>,
)
    ensures
        inferred_namespace(kube_namespace, pod_namespace, host_namespace).len() > 0,
{
}

} // verus!

verus! {

/// Inference in two steps agrees with inference in one: when neither variable
/// names a namespace, the host's answer alone decides, as it does in
/// `inferred_namespace` over all three.
pub proof fn lemma_infer_in_two_steps(
    kube_namespace: Option<Seq<char>>,
    pod_namespace: Option<Seq<char>>,
    host_namespace: Option<Seq<char>>,
)
    requires
        !(kube_namespace matches Some(ns) && ns.len() > 0),
        !(pod_namespace matches Some(ns) && ns.len() > 0),
    ensures
        inferred_namespace(kube_namespace, pod_namespace, host_namespace) == inferred_namespace(
            None,
            None,
            host_namespace,
        ),
{
}

} // verus!

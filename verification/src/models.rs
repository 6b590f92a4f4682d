//! Plain data carried between the stream workers, the aggregator, the filter
//! engine, the history buffer and the renderer.

use vstd::prelude::*;
use vstd::string::StringExecFns;

verus! {

/// One log line received from a target, tagged with where it came from.
/// Created by a stream worker; never mutated afterwards.
#[derive(Clone)]
pub struct LogMessage {
    pub pod_name: String,
    pub container_name: String,
    pub message: String,
}

/// The mathematical value of a `LogMessage`: the character sequences of its
/// three fields.
#[verifier::ext_equal]
pub ghost struct MsgView {
    pub pod_name: Seq<char>,
    pub container_name: Seq<char>,
    pub message: Seq<char>,
}

impl View for LogMessage {
    type V = MsgView;

    open spec fn view(&self) -> MsgView {
        MsgView {
            pod_name: self.pod_name@,
            container_name: self.container_name@,
            message: self.message@,
        }
    }
}

impl LogMessage {
    /// A field-for-field copy carrying the same character sequences.
    pub fn duplicate(&self) -> (r: LogMessage)
        ensures
            r@ == self@,
    {
        LogMessage {
            pod_name: self.pod_name.clone(),
            container_name: self.container_name.clone(),
            message: self.message.clone(),
        }
    }

    /// The line as shown to the operator: `[pod/container] message`.
    pub fn label(&self) -> (r: String)
        ensures
            r@ == "["@ + self@.pod_name + "/"@ + self@.container_name + "] "@ + self@.message,
    {
        let mut s = String::from_str("[");
        s.append(self.pod_name.as_str());
        s.append("/");
        s.append(self.container_name.as_str());
        s.append("] ");
        s.append(self.message.as_str());
        s
    }
}

/// One pod offered for selection: its name, its namespace and the names of
/// its containers.
#[derive(Clone)]
pub struct PodOption {
    pub name: String,
    pub namespace: String,
    pub containers: Vec<String>,
}

impl PodOption {
    /// The container a worker tails when the operator picks none: the pod's
    /// first container, or the name `default` for a pod that lists none.
    pub fn default_container(&self) -> (r: String)
        ensures
            self.containers@.len() > 0 ==> r@ == self.containers@[0]@,
            self.containers@.len() == 0 ==> r@ == "default"@,
    {
        if self.containers.len() > 0 {
            self.containers[0].clone()
        } else {
            String::from_str("default")
        }
    }

    /// The pod as shown in a pick list: `name (namespace)`.
    pub fn label(&self) -> (r: String)
        ensures
            r@ == self.name@ + " ("@ + self.namespace@ + ")"@,
    {
        let mut s = self.name.clone();
        s.append(" (");
        s.append(self.namespace.as_str());
        s.append(")");
        s
    }
}

/// Identifies one container to tail and how far back to start: immutable once
/// a stream worker is spawned.
#[derive(Clone)]
pub struct TargetDescriptor {
    pub pod_name: String,
    pub namespace: String,
    pub container_name: String,
    pub previous: bool,
    /// How many trailing lines to request; `None` tails without a bound.
    pub tail_lines: Option<i64>,
}

} // verus!

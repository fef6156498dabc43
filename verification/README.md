# brupop

The Bottlerocket update operator coordinates operating system updates on the Bottlerocket nodes
of a Kubernetes cluster. This crate holds what the operator decides, verified with Verus.

- `src/` is the library. No part of it reads a file, a clock other than through one function, or
  the network: it decides, and tells what is to be done.
  - `models`: the `BottlerocketShadow` resource in both of its versions, the manifests of the
    components, how a node is drained, and how the components log.
  - `controller`: which node is updated next and when. Cron expressions, update time windows, the
    order of nodes, the state machine of an update, and the loop of the controller.
  - `agent`: what the agent of a node does to carry out an update, and how it takes failures.
  - `apiserver`: who may change a node, what is sent to the apiserver and read by it, the
    certificates that it shows, and the conversion of resources between versions.
  - `integ`: the steps of an integration test on an EKS cluster.
  - `text`, `version`, `time`, `retry`, `string_map`: values that the others share.
- `app/` is the program around the library: it talks to Kubernetes, AWS, the Bottlerocket update
  API and the environment.
- `tests/` runs the library on concrete values.

Each function of the library states what it returns. Where a result comes from another crate, a
small function makes the call, and its comment says what is relied on. Public proof functions
state what holds of the library as a whole, for instance that an agent can change no node but its
own, that a node is rebooted only after it has been drained, and which parts of a resource a
conversion and its way back keep.

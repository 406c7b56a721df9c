# hakoniwa

Process isolation for Linux using namespaces, resource limits and landlock.

The crate is written in Verus. `src/` is the verified library: the model of
a container (namespaces, mounts, filesystem operations, ID mappings,
resource limits, landlock rules, network mode), the command builder, the
main process's side of the setup exchange with the child, and the readers of
the texts the library deals with (landlock access and permission texts,
`/etc/group` and `/etc/passwd` lines, the pasta command line, procfs
memory figures). Every public function states what it returns or changes in
its `ensures`, over views of the types.

`app/` holds what touches the host: reading directories for a root
filesystem, procfs and `getrusage(2)`, child process handling, running
pasta, the OCI descriptions of cgroup limits, the floating-point conversion
of CPU weights, and the serde forms of the results.

`tests/` exercises the library on concrete values.

# rbpf error type, verified

The error type of the rbpf eBPF virtual machine, written in Verus. `Error::new`
is proved to keep its message exactly: the view of the error (its message as a
sequence of characters) equals the view of the string it was built from.

# swcli

`swcli` starts coding tools with locally stored provider keys and converts between the protocols
that the tools and the providers speak.

- `src/` is the library, written and verified in Verus: the command line, the stored keys, model
  lists and catalogs, launch plans, the local proxy's HTTP, and the conversion between the Chat
  Completions, Responses, Messages and Generate Content protocols by way of one internal
  representation.
- `app/` is the program around it: files, network, processes, questions to the user, and the reading
  of request bodies into the types of the library.
- `tests/` runs the library on concrete values.

Every type of the library has a mathematical view, and every public function states its result over
views. Properties that span functions are public proof functions beside what they speak of. The
functions of outside crates that the library calls stand behind small wrappers, each with the part
of its documented behaviour that the library relies on.

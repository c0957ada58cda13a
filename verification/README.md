# libbridge

A CNI plugin that attaches containers to a Linux bridge, with its decisions written and proved in
Verus.

The library (`src/`) never touches the host. A command is a value: `request` says what the host is
to do next, and `resume` takes the host's answer and gives either the next state or the outcome.

| module    | what it holds                                                             |
|-----------|---------------------------------------------------------------------------|
| `vlan`    | VLAN trunk lists: which are refused, and which IDs the others name         |
| `netconf` | loading the configuration: defaults, checks, trunk IDs, hardware address   |
| `netlink` | the link messages that configure a bridge, and reading those that come back |
| `bridge`  | recognising a bridge in the kernel's description of a link                 |
| `ensure`  | making sure that a bridge exists with the settings that are asked for      |
| `setup`   | setting up the bridge that a configuration asks for                        |
| `veth`    | wiring a container to the bridge                                           |
| `command` | the ADD command                                                            |
| `removal` | the DEL command                                                            |
| `laws`    | what holds of the plugin as a whole                                        |

`app/` is the program around it: it reads the command, performs requests with `libcni` and
`rtnetlink`, and prints the reply.

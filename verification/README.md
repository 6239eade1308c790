# rollo

Firmware logic for motorised blinds: two stepper-driven axes (the slat
angle and the lateral travel), each homed against a limit switch; a JSON
command protocol served over HTTP; and a scheduler that opens the blinds
after sunrise and closes them after sunset, using the ipgeolocation.io
astronomy API.

`src/` is the library, verified with Verus. The axes, the blinds
controller and the scheduler are written as step machines: they say what
they need from the hardware next and are told the readings, so that the
decisions can be proved without blocking on hardware. `app/` is the
program for the host board, where a person at the terminal answers for the
steppers and switches: it runs the threads, the tide web server and the
reqwest client, decodes JSON, and feeds the library the readings. An axis
refuses moves until it has been homed, so the program homes both axes
when it starts.
